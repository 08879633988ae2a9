//! The execution of one request, hop by hop.
//!
//! An execution is a state machine. It does no I/O: after each step it names
//! the action that comes next, and it is stepped with what came of that
//! action and the instant at which it came. The caller looks names up,
//! connects, sends and reads; every decision between those is taken here.
//!
//! Instants are readings of a monotonic clock in nanoseconds. A reading that
//! lies before an earlier one counts as the earlier one.

use crate::infra::dns::{HickoryDnsResolver, Lookup};
use crate::proxy::headers::{lookup, Headers};
use crate::proxy::outgoing::{method_accepted, outgoing, validate_method, OutgoingRequest};
use crate::proxy::redirect::{advance, first_hop, initialize, next_hop, url_parsed, HopState};
use crate::proxy::response_builder::{
    build_response, built, utf8_len, HttpVersion, ResponseBuildParams,
};
use crate::proxy::types::{ErrorCode, ProxyRequest, ProxyResponse, RedirectHop, DEFAULT_TIMEOUT_MS};
use crate::shared::cert_parser::{extract_cert_info, extracted, opt_view, CapturedCertInfo, TlsSession};
use crate::shared::text::{joined, uppercase};
use crate::shared::timing::{elapsed_ms, millis_between, DetailedTiming};
use vstd::prelude::*;
use vstd::string::*;

verus! {

/// The number of redirects at which an execution gives up.
pub const MAX_REDIRECTS: usize = 20;

/// What an execution waits for.
#[derive(Debug, Clone, Copy)]
pub enum Phase {
    /// To learn whether the host is itself an address.
    Classifying,
    /// The lookup of the host.
    Resolving,
    /// The TCP connection.
    Connecting,
    /// The TLS handshake.
    Securing,
    /// The status and the headers of the response.
    Sending,
    /// The body of the response.
    Downloading,
}

/// The status and the headers of a response.
#[derive(Debug)]
pub struct ResponseHead {
    pub status: u16,
    pub headers: Headers,
    pub version: HttpVersion,
}

/// What the caller is to do next.
#[derive(Debug)]
pub enum Action {
    /// Find out whether `host` is itself an IP address, without a lookup.
    Classify { host: String },
    /// Look `host` up.
    Lookup { host: String },
    /// Open a TCP connection to `ip` at `port`.
    Connect { ip: String, port: u16, timeout_ms: u64 },
    /// Shake hands over TLS as a client of `server_name`.
    Secure { server_name: String, timeout_ms: u64 },
    /// Shake hands over HTTP/1.1, send `request`, and wait for status and
    /// headers.
    Send { request: OutgoingRequest, timeout_ms: u64 },
    /// Read the body to its end.
    Download { timeout_ms: u64 },
}

/// What came of an action.
#[derive(Debug)]
pub enum Event {
    /// The host is the address `literal`, or it is none.
    Classified { literal: Option<String> },
    /// The lookup ended.
    LookedUp { lookup: Lookup },
    /// The TCP connection stands.
    Connected,
    ConnectFailed { reason: String },
    ConnectTimedOut,
    /// The TLS handshake is done.
    Secured { session: TlsSession },
    /// The host cannot be the name of a TLS server.
    ServerNameInvalid { reason: String },
    HandshakeFailed { reason: String },
    HandshakeTimedOut,
    HttpHandshakeFailed { reason: String },
    /// The request could not be put together.
    BuildFailed { reason: String },
    SendFailed { reason: String },
    SendTimedOut,
    /// Status and headers of the response are there.
    Responded { status: u16, headers: Headers, version: HttpVersion },
    /// The body was read to its end.
    Downloaded { body: Vec<u8> },
    DownloadFailed { reason: String },
    DownloadTimedOut,
}

/// Everything an execution knows between two steps.
#[derive(Debug)]
pub struct ExecutionState {
    /// The request, as it came.
    pub request: ProxyRequest,
    /// The method as it is sent.
    pub method: String,
    /// The time that each action may take, in milliseconds.
    pub timeout_ms: u64,
    /// Where the next request goes.
    pub hop: HopState,
    /// Whether no redirect was followed yet.
    pub first_hop: bool,
    pub phase: Phase,
    /// The instants of the phases of the first hop, and of the download.
    pub timing: DetailedTiming,
    /// The redirects followed so far.
    pub chain: Vec<RedirectHop>,
    /// What the TLS handshake of the first hop showed.
    pub tls: Option<CapturedCertInfo>,
    /// The address to which the first hop went.
    pub server_ip: Option<String>,
    /// The instant at which the current hop began.
    pub hop_started: u64,
    /// The latest instant seen.
    pub clock: u64,
    /// Status and headers of the response whose body is awaited.
    pub head: Option<ResponseHead>,
}

/// An instant, where it is known, is not after `clock`.
pub open spec fn not_after(mark: Option<u64>, clock: u64) -> bool {
    match mark {
        Some(m) => m <= clock,
        None => true,
    }
}

impl ExecutionState {
    /// What holds of every execution between two steps: fewer redirects
    /// were followed than the ceiling allows; the phases that have both ends
    /// are in order and no instant lies ahead of the clock; the head of a
    /// response is kept exactly while its body is awaited; and on the first
    /// hop no phase is on record before its turn.
    pub open spec fn wf(&self) -> bool {
        &&& self.chain@.len() < MAX_REDIRECTS
        &&& self.first_hop == (self.chain@.len() == 0)
        &&& self.timing.ordered()
        &&& self.timing.total_start <= self.clock
        &&& self.hop_started <= self.clock
        &&& not_after(self.timing.dns_start, self.clock)
        &&& not_after(self.timing.dns_end, self.clock)
        &&& not_after(self.timing.tcp_start, self.clock)
        &&& not_after(self.timing.tcp_end, self.clock)
        &&& not_after(self.timing.tls_start, self.clock)
        &&& not_after(self.timing.tls_end, self.clock)
        &&& not_after(self.timing.request_start, self.clock)
        &&& not_after(self.timing.ttfb, self.clock)
        &&& not_after(self.timing.download_start, self.clock)
        &&& self.timing.download_end is None
        &&& (self.phase is Downloading) == (self.head is Some)
        &&& self.first_hop && (self.phase is Classifying || self.phase is Resolving)
            ==> self.no_connection_recorded()
        &&& self.first_hop && self.phase is Connecting ==> self.timing.tls_start is None
            && self.timing.tls_end is None
        &&& self.first_hop && !(self.phase is Downloading) ==> self.timing.ttfb is None
    }

    /// Neither a TCP connection nor a TLS handshake has an instant on
    /// record.
    pub open spec fn no_connection_recorded(&self) -> bool {
        &&& self.timing.tcp_start is None
        &&& self.timing.tcp_end is None
        &&& self.timing.tls_start is None
        &&& self.timing.tls_end is None
    }

    /// The instant that the reading `now` counts as.
    pub open spec fn instant(&self, now: u64) -> u64 {
        if now < self.clock {
            self.clock
        } else {
            now
        }
    }

    /// The timing after a mark that only the first hop sets: `timing` on
    /// the first hop, the timing as it was on a later one.
    pub open spec fn marked(&self, timing: DetailedTiming) -> DetailedTiming {
        if self.first_hop {
            timing
        } else {
            self.timing
        }
    }

    /// The step asks for a connection to `ip`. On the first hop the DNS
    /// phase ends, the TCP phase begins and `ip` is kept as the address of
    /// the server.
    pub open spec fn connects(&self, ip: String, now: u64, post: Step) -> bool {
        let t = self.instant(now);
        &&& post matches Step::Continue { execution, action }
        &&& execution@ == (ExecutionState {
            phase: Phase::Connecting,
            clock: t,
            timing: self.marked(
                DetailedTiming { dns_end: Some(t), tcp_start: Some(t), ..self.timing },
            ),
            server_ip: if self.first_hop {
                Some(ip)
            } else {
                self.server_ip
            },
            ..*self
        })
        &&& action matches Action::Connect { ip: target, port, timeout_ms }
        &&& target@ == ip@
        &&& port == self.hop.port
        &&& timeout_ms == self.timeout_ms
    }

    /// What follows once it is known whether the host is an address: an
    /// address is connected to without a lookup; a name is looked up.
    pub open spec fn classified(&self, literal: Option<String>, now: u64, post: Step) -> bool {
        match literal {
            Some(ip) => self.connects(ip, now, post),
            None => {
                &&& post matches Step::Continue { execution, action }
                &&& execution@ == (ExecutionState {
                    phase: Phase::Resolving,
                    clock: self.instant(now),
                    ..*self
                })
                &&& action matches Action::Lookup { host }
                &&& host@ == self.hop.host@
            },
        }
    }

    /// What follows a lookup: a failure, or an answer without addresses,
    /// ends the execution; else the first address is connected to.
    pub open spec fn looked_up(&self, lookup: Lookup, now: u64, post: Step) -> bool {
        match lookup {
            Lookup::Failure { reason } => post.fails_with(
                "DNS lookup failed: "@ + reason@,
                ErrorCode::DnsError,
            ),
            Lookup::Answer { ips, duration_ms } => if ips@.len() == 0 {
                post.fails_with("DNS lookup returned no addresses"@, ErrorCode::DnsError)
            } else {
                self.connects(ips@[0], now, post)
            },
        }
    }

    /// The step asks for the request of the current hop to be sent. On the
    /// first hop the wait for the first byte begins.
    pub open spec fn sends(&self, post: Step) -> bool {
        &&& post matches Step::Continue { execution, action }
        &&& execution@ == (ExecutionState {
            phase: Phase::Sending,
            timing: self.marked(
                DetailedTiming { request_start: Some(self.clock), ..self.timing },
            ),
            ..*self
        })
        &&& action matches Action::Send { request, timeout_ms }
        &&& request.carries(self.method@, self.hop, self.request)
        &&& timeout_ms == self.timeout_ms
    }

    /// The state once the TCP connection stands: on the first hop the TCP
    /// phase ends and the hop begins.
    pub open spec fn opened(&self, now: u64) -> ExecutionState {
        let t = self.instant(now);
        ExecutionState {
            clock: t,
            timing: self.marked(DetailedTiming { tcp_end: Some(t), ..self.timing }),
            hop_started: if self.first_hop {
                t
            } else {
                self.hop_started
            },
            ..*self
        }
    }

    /// What follows a connection: over TLS the handshake, with the host as
    /// server name; else the request.
    pub open spec fn connected(&self, now: u64, post: Step) -> bool {
        let opened = self.opened(now);
        if self.hop.secure {
            &&& post matches Step::Continue { execution, action }
            &&& execution@ == (ExecutionState {
                phase: Phase::Securing,
                timing: self.marked(
                    DetailedTiming { tls_start: Some(opened.clock), ..opened.timing },
                ),
                ..opened
            })
            &&& action matches Action::Secure { server_name, timeout_ms }
            &&& server_name@ == self.hop.host@
            &&& timeout_ms == self.timeout_ms
        } else {
            opened.sends(post)
        }
    }

    /// What follows a TLS handshake: the request. On the first hop the TLS
    /// phase ends, and what the session shows is captured; later hops
    /// capture nothing.
    pub open spec fn secured(&self, session: TlsSession, now: u64, post: Step) -> bool {
        let t = self.instant(now);
        &&& post matches Step::Continue { execution, action }
        &&& if self.first_hop {
            extracted(execution@.tls, session)
        } else {
            execution@.tls == self.tls
        }
        &&& (ExecutionState {
            clock: t,
            timing: self.marked(DetailedTiming { tls_end: Some(t), ..self.timing }),
            tls: execution@.tls,
            ..*self
        }).sends(post)
    }

    /// The location to which a response redirects: that of its `Location`
    /// header, where its status is one of redirection.
    pub open spec fn redirect_target(status: u16, headers: Headers) -> Option<Seq<char>> {
        if 300 <= status < 400 {
            lookup(headers@, "location"@)
        } else {
            None
        }
    }

    /// `hop` records the redirect that the current hop was answered with at
    /// the instant `t`, and that leads to `next_url`.
    pub open spec fn records(
        &self,
        hop: RedirectHop,
        status: u16,
        headers: Headers,
        t: u64,
        next_url: Seq<char>,
    ) -> bool {
        &&& hop.url@ == self.hop.url@
        &&& hop.status == status
        &&& hop.duration == elapsed_ms(self.hop_started, t)
        &&& hop.headers == Some(headers)
        &&& hop.opaque is None
        &&& opt_view(hop.message) == Some("Redirect to: "@ + next_url)
    }

    /// What follows status and headers of a response. A redirect is
    /// recorded and followed from its first step, unless it is the one that
    /// reaches the ceiling, which ends the execution. Any other response is
    /// final: its body is read.
    pub open spec fn responded(
        &self,
        status: u16,
        headers: Headers,
        version: HttpVersion,
        now: u64,
        post: Step,
    ) -> bool {
        let t = self.instant(now);
        let timing = self.marked(DetailedTiming { ttfb: Some(t), ..self.timing });
        match Self::redirect_target(status, headers) {
            Some(location) => if self.chain@.len() + 1 >= MAX_REDIRECTS {
                post.fails_with("Too many redirects"@, ErrorCode::TooManyRedirects)
            } else {
                &&& post matches Step::Continue { execution, action }
                &&& execution@.hop@ == next_hop(self.hop@, location, url_parsed(location))
                &&& execution@.chain@.len() == self.chain@.len() + 1
                &&& execution@.chain@.drop_last() == self.chain@
                &&& self.records(execution@.chain@.last(), status, headers, t, execution@.hop.url@)
                &&& (ExecutionState { hop: self.hop, chain: self.chain, ..execution@ }) == (
                ExecutionState {
                    clock: t,
                    timing,
                    first_hop: false,
                    hop_started: t,
                    phase: Phase::Classifying,
                    ..*self
                })
                &&& action matches Action::Classify { host }
                &&& host@ == execution@.hop.host@
            },
            None => {
                &&& post matches Step::Continue { execution, action }
                &&& execution@ == (ExecutionState {
                    clock: t,
                    timing: DetailedTiming { download_start: Some(t), ..timing },
                    head: Some(ResponseHead { status, headers, version }),
                    phase: Phase::Downloading,
                    ..*self
                })
                &&& action matches Action::Download { timeout_ms }
                &&& timeout_ms == self.timeout_ms
            },
        }
    }

    /// What the result is made of once the body `body` was read at the
    /// instant `t`. The TLS report goes with a last hop over TLS only.
    pub open spec fn final_params(&self, body: Vec<u8>, t: u64) -> ResponseBuildParams
        recommends
            self.head is Some,
    {
        ResponseBuildParams {
            status: self.head->0.status,
            headers: self.head->0.headers,
            body_bytes: body,
            timing: DetailedTiming { download_end: Some(t), ..self.timing },
            final_url: self.hop.url,
            redirect_chain: self.chain,
            tls_info: if self.hop.secure {
                self.tls
            } else {
                None
            },
            http_version: self.head->0.version,
            server_ip: self.server_ip,
            request_headers: self.request.headers,
            request_body_size: match self.request.body {
                Some(text) => Some(utf8_len(text@) as usize),
                None => None,
            },
        }
    }

    /// What follows the body: the result of the execution.
    pub open spec fn downloaded(&self, body: Vec<u8>, now: u64, post: Step) -> bool {
        let t = self.instant(now);
        &&& post matches Step::Finished { response }
        &&& built(response, self.final_params(body, t), t)
    }

    /// What follows `event` at the reading `now`. An event that the phase
    /// does not wait for changes nothing.
    pub open spec fn follows(&self, event: Event, now: u64, post: Step) -> bool {
        match (self.phase, event) {
            (Phase::Classifying, Event::Classified { literal }) => self.classified(
                literal,
                now,
                post,
            ),
            (Phase::Resolving, Event::LookedUp { lookup }) => self.looked_up(lookup, now, post),
            (Phase::Connecting, Event::Connected) => self.connected(now, post),
            (Phase::Connecting, Event::ConnectFailed { reason }) => post.fails_with(
                if self.first_hop {
                    "TCP connection failed: "@
                } else {
                    "Redirect connection failed: "@
                } + reason@,
                ErrorCode::ConnectionFailed,
            ),
            (Phase::Connecting, Event::ConnectTimedOut) => post.fails_with(
                if self.first_hop {
                    "TCP connection timed out"@
                } else {
                    "Redirect connection timed out"@
                },
                ErrorCode::Timeout,
            ),
            (Phase::Securing, Event::Secured { session }) => self.secured(session, now, post),
            (Phase::Securing, Event::ServerNameInvalid { reason }) => post.fails_with(
                "Invalid server name: "@ + reason@,
                ErrorCode::TlsError,
            ),
            (Phase::Securing, Event::HandshakeFailed { reason }) => post.fails_with(
                "TLS handshake failed: "@ + reason@,
                ErrorCode::TlsError,
            ),
            (Phase::Securing, Event::HandshakeTimedOut) => post.fails_with(
                "TLS handshake timed out"@,
                ErrorCode::Timeout,
            ),
            (Phase::Sending, Event::HttpHandshakeFailed { reason }) => post.fails_with(
                "HTTP handshake failed: "@ + reason@,
                ErrorCode::HttpError,
            ),
            (Phase::Sending, Event::BuildFailed { reason }) => post.fails_with(
                "Failed to build request: "@ + reason@,
                ErrorCode::RequestBuildError,
            ),
            (Phase::Sending, Event::SendFailed { reason }) => post.fails_with(
                "Request failed: "@ + reason@,
                ErrorCode::RequestFailed,
            ),
            (Phase::Sending, Event::SendTimedOut) => post.fails_with(
                "Request timed out"@,
                ErrorCode::Timeout,
            ),
            (Phase::Sending, Event::Responded { status, headers, version }) => self.responded(
                status,
                headers,
                version,
                now,
                post,
            ),
            (Phase::Downloading, Event::Downloaded { body }) => self.downloaded(body, now, post),
            (Phase::Downloading, Event::DownloadFailed { reason }) => post.fails_with(
                "Failed to read body: "@ + reason@,
                ErrorCode::BodyReadError,
            ),
            (Phase::Downloading, Event::DownloadTimedOut) => post.fails_with(
                "Body read timed out"@,
                ErrorCode::Timeout,
            ),
            _ => post matches Step::Unexpected { execution } && execution@ == *self,
        }
    }
}

/// One execution, between two steps.
#[derive(Debug)]
pub struct Execution {
    state: ExecutionState,
}

impl View for Execution {
    type V = ExecutionState;

    closed spec fn view(&self) -> ExecutionState {
        self.state
    }
}

/// Where an execution stands after a step.
#[derive(Debug)]
pub enum Step {
    /// The execution goes on once `action` is done.
    Continue { execution: Execution, action: Action },
    /// The execution is over.
    Finished { response: ProxyResponse },
    /// The event was none that the execution waited for; nothing changed.
    Unexpected { execution: Execution },
}

impl Step {
    /// The execution is over, and failed with this message and code.
    pub open spec fn fails_with(self, message: Seq<char>, code: ErrorCode) -> bool {
        self matches Step::Finished { response } && response.fails_with(message, code)
    }
}

/// How an execution of `request` begins at the instant `now`: a URL that
/// cannot be requested and a method that is none end it before anything is
/// done; else the DNS phase begins, and the first action is to find out
/// whether the host is an address.
pub open spec fn begins(request: ProxyRequest, now: u64, post: Step) -> bool {
    match first_hop(request.url@, url_parsed(request.url@)) {
        Err(message) => post.fails_with(message, ErrorCode::InvalidUrl),
        Ok(hop) => if !method_accepted(uppercase(request.method@)) {
            post.fails_with("Invalid method: "@ + request.method@, ErrorCode::InvalidMethod)
        } else {
            &&& post matches Step::Continue { execution, action }
            &&& execution@.request == request
            &&& execution@.method@ == uppercase(request.method@)
            &&& execution@.timeout_ms == match request.timeout {
                Some(ms) => ms,
                None => DEFAULT_TIMEOUT_MS,
            }
            &&& execution@.hop@ == hop
            &&& execution@.first_hop
            &&& execution@.phase is Classifying
            &&& execution@.timing == (DetailedTiming {
                dns_start: Some(now),
                dns_end: None,
                tcp_start: None,
                tcp_end: None,
                tls_start: None,
                tls_end: None,
                request_start: None,
                ttfb: None,
                download_start: None,
                download_end: None,
                total_start: now,
            })
            &&& execution@.chain@.len() == 0
            &&& execution@.tls is None
            &&& execution@.server_ip is None
            &&& execution@.hop_started == now
            &&& execution@.clock == now
            &&& execution@.head is None
            &&& action matches Action::Classify { host }
            &&& host@ == hop.host
        },
    }
}

/// The step that ends an execution with a failure.
fn fail(message: String, code: ErrorCode) -> (post: Step)
    ensures
        post.fails_with(message@, code),
{
    Step::Finished { response: ProxyResponse::failure(message, code) }
}

impl Execution {
    #[verifier::type_invariant]
    spec fn well_formed(&self) -> bool {
        self.state.wf()
    }

    /// Begins the execution of `request` at the instant `now`.
    pub fn start(request: ProxyRequest, now: u64) -> (post: Step)
        ensures
            begins(request, now, post),
            post matches Step::Continue { execution, .. } ==> execution@.wf(),
    {
        let hop = match initialize(request.url.as_str()) {
            Ok(hop) => hop,
            Err(refusal) => {
                return fail(refusal.message, ErrorCode::InvalidUrl);
            },
        };
        let method = match validate_method(request.method.as_str()) {
            Ok(method) => method,
            Err(message) => {
                return fail(message, ErrorCode::InvalidMethod);
            },
        };
        let timeout_ms = match request.timeout {
            Some(ms) => ms,
            None => DEFAULT_TIMEOUT_MS,
        };
        let mut timing = DetailedTiming::new(now);
        timing.start_dns(now);
        let host = hop.host.clone();
        let state = ExecutionState {
            request,
            method,
            timeout_ms,
            hop,
            first_hop: true,
            phase: Phase::Classifying,
            timing,
            chain: Vec::new(),
            tls: None,
            server_ip: None,
            hop_started: now,
            clock: now,
            head: None,
        };
        Step::Continue { execution: Execution { state }, action: Action::Classify { host } }
    }

    /// What the execution knows.
    pub fn state(&self) -> (state: &ExecutionState)
        ensures
            *state == self@,
            state.wf(),
    {
        proof {
            use_type_invariant(self);
        }
        &self.state
    }

    /// Takes the execution one step on: `event` is what came of the action
    /// that the last step named, `now` the reading of the clock when it
    /// came.
    pub fn step(self, event: Event, now: u64) -> (post: Step)
        ensures
            self@.wf(),
            self@.follows(event, now, post),
            post matches Step::Continue { execution, .. } ==> execution@.wf(),
    {
        proof {
            use_type_invariant(&self);
        }
        let Execution { state } = self;
        let mut state = state;
        let t = if now < state.clock {
            state.clock
        } else {
            now
        };
        match (state.phase, event) {
            (Phase::Classifying, Event::Classified { literal }) => match HickoryDnsResolver::new().shortcut(
                literal,
            ) {
                Some(found) => {
                    let mut ips = found.ips;
                    let ip = ips.swap_remove(0);
                    connect(state, ip, t)
                },
                None => {
                    state.clock = t;
                    state.phase = Phase::Resolving;
                    let host = state.hop.host.clone();
                    Step::Continue { execution: Execution { state }, action: Action::Lookup { host } }
                },
            },
            (Phase::Resolving, Event::LookedUp { lookup }) => match HickoryDnsResolver::new().conclude(
                lookup,
            ) {
                Err(message) => fail(message, ErrorCode::DnsError),
                Ok(found) => {
                    let mut ips = found.ips;
                    let ip = ips.swap_remove(0);
                    connect(state, ip, t)
                },
            },
            (Phase::Connecting, Event::Connected) => {
                state.clock = t;
                if state.first_hop {
                    state.timing.end_tcp(t);
                    state.hop_started = t;
                }
                if state.hop.secure {
                    if state.first_hop {
                        state.timing.start_tls(t);
                    }
                    state.phase = Phase::Securing;
                    let server_name = state.hop.host.clone();
                    let timeout_ms = state.timeout_ms;
                    Step::Continue {
                        execution: Execution { state },
                        action: Action::Secure { server_name, timeout_ms },
                    }
                } else {
                    send(state)
                }
            },
            (Phase::Connecting, Event::ConnectFailed { reason }) => fail(
                joined(
                    if state.first_hop {
                        "TCP connection failed: "
                    } else {
                        "Redirect connection failed: "
                    },
                    reason.as_str(),
                ),
                ErrorCode::ConnectionFailed,
            ),
            (Phase::Connecting, Event::ConnectTimedOut) => fail(
                String::from_str(
                    if state.first_hop {
                        "TCP connection timed out"
                    } else {
                        "Redirect connection timed out"
                    },
                ),
                ErrorCode::Timeout,
            ),
            (Phase::Securing, Event::Secured { session }) => {
                state.clock = t;
                if state.first_hop {
                    state.timing.end_tls(t);
                    state.tls = extract_cert_info(&session);
                }
                send(state)
            },
            (Phase::Securing, Event::ServerNameInvalid { reason }) => fail(
                joined("Invalid server name: ", reason.as_str()),
                ErrorCode::TlsError,
            ),
            (Phase::Securing, Event::HandshakeFailed { reason }) => fail(
                joined("TLS handshake failed: ", reason.as_str()),
                ErrorCode::TlsError,
            ),
            (Phase::Securing, Event::HandshakeTimedOut) => fail(
                String::from_str("TLS handshake timed out"),
                ErrorCode::Timeout,
            ),
            (Phase::Sending, Event::HttpHandshakeFailed { reason }) => fail(
                joined("HTTP handshake failed: ", reason.as_str()),
                ErrorCode::HttpError,
            ),
            (Phase::Sending, Event::BuildFailed { reason }) => fail(
                joined("Failed to build request: ", reason.as_str()),
                ErrorCode::RequestBuildError,
            ),
            (Phase::Sending, Event::SendFailed { reason }) => fail(
                joined("Request failed: ", reason.as_str()),
                ErrorCode::RequestFailed,
            ),
            (Phase::Sending, Event::SendTimedOut) => fail(
                String::from_str("Request timed out"),
                ErrorCode::Timeout,
            ),
            (Phase::Sending, Event::Responded { status, headers, version }) => respond(
                state,
                status,
                headers,
                version,
                t,
            ),
            (Phase::Downloading, Event::Downloaded { body }) => {
                let ExecutionState {
                    request,
                    method,
                    timeout_ms,
                    hop,
                    first_hop,
                    phase,
                    timing,
                    chain,
                    tls,
                    server_ip,
                    hop_started,
                    clock,
                    head,
                } = state;
                let mut timing = timing;
                timing.end_download(t);
                match head {
                    Some(head) => {
                        let params = ResponseBuildParams {
                            status: head.status,
                            headers: head.headers,
                            body_bytes: body,
                            timing,
                            final_url: hop.url,
                            redirect_chain: chain,
                            tls_info: if hop.secure {
                                tls
                            } else {
                                None
                            },
                            http_version: head.version,
                            server_ip,
                            request_headers: request.headers,
                            request_body_size: match request.body {
                                Some(text) => Some(text.as_str().as_bytes().len()),
                                None => None,
                            },
                        };
                        Step::Finished { response: build_response(params, t) }
                    },
                    None => {
                        // While a body is awaited its head is kept.
                        proof {
                            assert(false);
                        }
                        fail(String::new(), ErrorCode::BodyReadError)
                    },
                }
            },
            (Phase::Downloading, Event::DownloadFailed { reason }) => fail(
                joined("Failed to read body: ", reason.as_str()),
                ErrorCode::BodyReadError,
            ),
            (Phase::Downloading, Event::DownloadTimedOut) => fail(
                String::from_str("Body read timed out"),
                ErrorCode::Timeout,
            ),
            _ => Step::Unexpected { execution: Execution { state } },
        }
    }
}

/// Begins to execute `request` at the instant `now`: the first step of its
/// execution. The caller does what each step names and hands back what came
/// of it, until a step is the last.
pub fn execute_request(request: ProxyRequest, now: u64) -> (post: Step)
    ensures
        begins(request, now, post),
        post matches Step::Continue { execution, .. } ==> execution@.wf(),
{
    Execution::start(request, now)
}

/// Asks for a connection to `ip`, at the instant `t`.
fn connect(state: ExecutionState, ip: String, t: u64) -> (post: Step)
    requires
        state.wf(),
        state.phase is Classifying || state.phase is Resolving,
        t >= state.clock,
    ensures
        state.connects(ip, t, post),
        post matches Step::Continue { execution, .. } && execution@.wf(),
{
    let mut state = state;
    let target = ip.clone();
    state.clock = t;
    state.phase = Phase::Connecting;
    if state.first_hop {
        state.timing.end_dns(t);
        state.timing.start_tcp(t);
        state.server_ip = Some(ip);
    }
    let port = state.hop.port;
    let timeout_ms = state.timeout_ms;
    Step::Continue {
        execution: Execution { state },
        action: Action::Connect { ip: target, port, timeout_ms },
    }
}

/// Asks for the request of the current hop to be sent, at the instant of
/// the clock.
fn send(state: ExecutionState) -> (post: Step)
    requires
        state.wf(),
        !(state.phase is Downloading),
    ensures
        state.sends(post),
        post matches Step::Continue { execution, .. } && execution@.wf(),
{
    let mut state = state;
    let request = outgoing(state.method.as_str(), &state.hop, &state.request);
    if state.first_hop {
        state.timing.start_request(state.clock);
    }
    state.phase = Phase::Sending;
    let timeout_ms = state.timeout_ms;
    Step::Continue { execution: Execution { state }, action: Action::Send { request, timeout_ms } }
}

/// Decides what follows status and headers of a response that came at the
/// instant `t`.
fn respond(state: ExecutionState, status: u16, headers: Headers, version: HttpVersion, t: u64) -> (post:
    Step)
    requires
        state.wf(),
        state.phase is Sending,
        t >= state.clock,
    ensures
        state.responded(status, headers, version, t, post),
        post matches Step::Continue { execution, .. } ==> execution@.wf(),
{
    let mut state = state;
    let ghost pre = state;
    state.clock = t;
    if state.first_hop {
        state.timing.mark_ttfb(t);
    }
    let location: Option<String> = if 300 <= status && status < 400 {
        match headers.get("location") {
            Some(value) => Some(value.clone()),
            None => None,
        }
    } else {
        None
    };
    match location {
        Some(location) => {
            if state.chain.len() + 1 >= MAX_REDIRECTS {
                fail(String::from_str("Too many redirects"), ErrorCode::TooManyRedirects)
            } else {
                let next = advance(&state.hop, location.as_str());
                let record = RedirectHop {
                    url: state.hop.url.clone(),
                    status,
                    duration: millis_between(state.hop_started, t),
                    headers: Some(headers),
                    opaque: None,
                    message: Some(joined("Redirect to: ", next.url.as_str())),
                };
                state.chain.push(record);
                let host = next.host.clone();
                state.hop = next;
                state.first_hop = false;
                state.hop_started = t;
                state.phase = Phase::Classifying;
                proof {
                    assert(state.chain@.drop_last() =~= pre.chain@);
                }
                Step::Continue { execution: Execution { state }, action: Action::Classify { host } }
            }
        },
        None => {
            state.timing.start_download(t);
            state.head = Some(ResponseHead { status, headers, version });
            state.phase = Phase::Downloading;
            let timeout_ms = state.timeout_ms;
            Step::Continue {
                execution: Execution { state },
                action: Action::Download { timeout_ms },
            }
        },
    }
}

/// A host that is itself an address is connected to at that address, and
/// is never looked up.
pub proof fn lemma_literal_skips_lookup(pre: ExecutionState, ip: String, now: u64, post: Step)
    requires
        pre.classified(Some(ip), now, post),
    ensures
        post matches Step::Continue { action, .. } && !(action is Lookup) && (
        action matches Action::Connect { ip: target, port, .. } && target@ == ip@ && port
            == pre.hop.port),
{
}

/// A host that cannot be resolved ends the execution with `DNS_ERROR`, and
/// where it is the host of the request itself, neither a TCP connection nor
/// a TLS handshake has an instant on record by then.
pub proof fn lemma_unresolved_host(pre: ExecutionState, reason: String, now: u64, post: Step)
    requires
        pre.wf(),
        pre.phase is Resolving,
        pre.follows(Event::LookedUp { lookup: Lookup::Failure { reason } }, now, post),
    ensures
        post.fails_with("DNS lookup failed: "@ + reason@, ErrorCode::DnsError),
        pre.first_hop ==> pre.no_connection_recorded(),
{
}

/// The redirect that would be the twentieth ends the execution with
/// `TOO_MANY_REDIRECTS`; every earlier one is recorded at the end of the
/// chain and followed.
pub proof fn lemma_redirect_ceiling(
    pre: ExecutionState,
    status: u16,
    headers: Headers,
    version: HttpVersion,
    now: u64,
    post: Step,
)
    requires
        pre.wf(),
        pre.phase is Sending,
        ExecutionState::redirect_target(status, headers) is Some,
        pre.follows(Event::Responded { status, headers, version }, now, post),
    ensures
        pre.chain@.len() == MAX_REDIRECTS - 1 ==> post.fails_with(
            "Too many redirects"@,
            ErrorCode::TooManyRedirects,
        ),
        pre.chain@.len() < MAX_REDIRECTS - 1 ==> (post matches Step::Continue { execution, .. }
            && execution@.chain@.len() == pre.chain@.len() + 1 && execution@.chain@.drop_last()
            == pre.chain@ && execution@.phase is Classifying),
{
}

/// An execution that ends with a response reports the redirects it
/// followed, all of them and in their order, and fewer than the ceiling.
pub proof fn lemma_final_chain(pre: ExecutionState, body: Vec<u8>, now: u64, post: Step)
    requires
        pre.wf(),
        pre.phase is Downloading,
        pre.follows(Event::Downloaded { body }, now, post),
        post matches Step::Finished { response } && response is Success,
    ensures
        post matches Step::Finished { response: ProxyResponse::Success { data } } && data.redirected
            == (pre.chain@.len() > 0) && data.redirect_chain == (if pre.chain@.len() > 0 {
            Some(pre.chain)
        } else {
            None
        }) && pre.chain@.len() < MAX_REDIRECTS,
{
}

/// The timing that an execution reports is that of a record in which each
/// phase ends no earlier than it began.
pub proof fn lemma_final_timing(pre: ExecutionState, body: Vec<u8>, now: u64, post: Step)
    requires
        pre.wf(),
        pre.phase is Downloading,
        pre.follows(Event::Downloaded { body }, now, post),
        post matches Step::Finished { response } && response is Success,
    ensures
        post matches Step::Finished { response: ProxyResponse::Success { data } } && data.timing
            == pre.final_params(body, pre.instant(now)).timing.durations(pre.instant(now)),
        pre.final_params(body, pre.instant(now)).timing.ordered(),
{
}

/// A first hop that does not go over TLS leaves the TLS phase without
/// instants, and no later hop records any.
pub proof fn lemma_plain_hop_records_no_handshake(pre: ExecutionState, now: u64, post: Step)
    requires
        pre.wf(),
        pre.phase is Connecting,
        !pre.hop.secure || !pre.first_hop,
        pre.follows(Event::Connected, now, post),
    ensures
        post matches Step::Continue { execution, .. } && execution@.timing.tls_start
            == pre.timing.tls_start && execution@.timing.tls_end == pre.timing.tls_end,
        pre.first_hop ==> pre.timing.tls_start is None && pre.timing.tls_end is None,
{
}

} // verus!
