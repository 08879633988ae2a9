//! The instants at which the phases of a request began and ended.
//!
//! An instant is a reading of a monotonic clock in nanoseconds. The record
//! keeps the readings as they were taken; durations are derived on demand.

use crate::proxy::types::TimingInfo;
use vstd::prelude::*;

verus! {

/// Nanoseconds in a millisecond.
pub const NANOS_PER_MILLI: u64 = 1000000;

/// The whole milliseconds from `start` to `end`, zero where `end` lies
/// before `start`.
pub open spec fn elapsed_ms(start: u64, end: u64) -> u64 {
    if end >= start {
        ((end - start) / 1000000) as u64
    } else {
        0
    }
}

/// The duration of a phase, known once both of its ends are.
pub open spec fn phase_ms(start: Option<u64>, end: Option<u64>) -> Option<u64> {
    match (start, end) {
        (Some(s), Some(e)) => Some(elapsed_ms(s, e)),
        _ => None,
    }
}

/// A phase that has both ends ends no earlier than it began.
pub open spec fn in_order(start: Option<u64>, end: Option<u64>) -> bool {
    match (start, end) {
        (Some(s), Some(e)) => s <= e,
        _ => true,
    }
}

/// The whole milliseconds from `start` to `end`, zero where `end` lies
/// before `start`.
pub fn millis_between(start: u64, end: u64) -> (ms: u64)
    ensures
        ms == elapsed_ms(start, end),
{
    if end >= start {
        (end - start) / NANOS_PER_MILLI
    } else {
        0
    }
}

/// The duration of a phase in milliseconds, where both ends are known.
pub fn phase_millis(start: Option<u64>, end: Option<u64>) -> (ms: Option<u64>)
    ensures
        ms == phase_ms(start, end),
{
    match (start, end) {
        (Some(s), Some(e)) => Some(millis_between(s, e)),
        _ => None,
    }
}

/// The instants of the phases of one execution: DNS lookup, TCP connection,
/// TLS handshake, request to first byte, and download.
#[derive(Debug)]
pub struct DetailedTiming {
    pub dns_start: Option<u64>,
    pub dns_end: Option<u64>,
    pub tcp_start: Option<u64>,
    pub tcp_end: Option<u64>,
    pub tls_start: Option<u64>,
    pub tls_end: Option<u64>,
    pub request_start: Option<u64>,
    pub ttfb: Option<u64>,
    pub download_start: Option<u64>,
    pub download_end: Option<u64>,
    pub total_start: u64,
}

impl DetailedTiming {
    /// Every phase that has both ends ends no earlier than it began, and the
    /// download ends no earlier than the execution began.
    pub open spec fn ordered(&self) -> bool {
        &&& in_order(self.dns_start, self.dns_end)
        &&& in_order(self.tcp_start, self.tcp_end)
        &&& in_order(self.tls_start, self.tls_end)
        &&& in_order(self.request_start, self.ttfb)
        &&& in_order(self.download_start, self.download_end)
        &&& in_order(Some(self.total_start), self.download_end)
    }

    /// A record without phases, of an execution that begins at `now`.
    pub fn new(now: u64) -> (timing: Self)
        ensures
            timing == (DetailedTiming {
                dns_start: None,
                dns_end: None,
                tcp_start: None,
                tcp_end: None,
                tls_start: None,
                tls_end: None,
                request_start: None,
                ttfb: None,
                download_start: None,
                download_end: None,
                total_start: now,
            }),
            timing.ordered(),
    {
        DetailedTiming {
            dns_start: None,
            dns_end: None,
            tcp_start: None,
            tcp_end: None,
            tls_start: None,
            tls_end: None,
            request_start: None,
            ttfb: None,
            download_start: None,
            download_end: None,
            total_start: now,
        }
    }

    /// The durations of the phases in milliseconds. The total runs from the
    /// start of the execution to the end of the download, or to `now` while
    /// the download has not ended.
    pub open spec fn durations(&self, now: u64) -> TimingInfo {
        TimingInfo {
            total: elapsed_ms(
                self.total_start,
                match self.download_end {
                    Some(end) => end,
                    None => now,
                },
            ),
            dns: phase_ms(self.dns_start, self.dns_end),
            tcp: phase_ms(self.tcp_start, self.tcp_end),
            tls: phase_ms(self.tls_start, self.tls_end),
            ttfb: phase_ms(self.request_start, self.ttfb),
            download: phase_ms(self.download_start, self.download_end),
            blocked: Some(0u64),
        }
    }

    /// The durations of the phases in milliseconds, at the instant `now`.
    pub fn to_timing_info(&self, now: u64) -> (info: TimingInfo)
        ensures
            info == self.durations(now),
    {
        let end = match self.download_end {
            Some(end) => end,
            None => now,
        };
        TimingInfo {
            total: millis_between(self.total_start, end),
            dns: phase_millis(self.dns_start, self.dns_end),
            tcp: phase_millis(self.tcp_start, self.tcp_end),
            tls: phase_millis(self.tls_start, self.tls_end),
            ttfb: phase_millis(self.request_start, self.ttfb),
            download: phase_millis(self.download_start, self.download_end),
            blocked: Some(0),
        }
    }

    /// The DNS lookup begins at `now`.
    pub fn start_dns(&mut self, now: u64)
        ensures
            *final(self) == (DetailedTiming { dns_start: Some(now), ..*old(self) }),
    {
        self.dns_start = Some(now);
    }

    /// The DNS lookup ends at `now`.
    pub fn end_dns(&mut self, now: u64)
        ensures
            *final(self) == (DetailedTiming { dns_end: Some(now), ..*old(self) }),
    {
        self.dns_end = Some(now);
    }

    /// The TCP connection begins at `now`.
    pub fn start_tcp(&mut self, now: u64)
        ensures
            *final(self) == (DetailedTiming { tcp_start: Some(now), ..*old(self) }),
    {
        self.tcp_start = Some(now);
    }

    /// The TCP connection stands at `now`.
    pub fn end_tcp(&mut self, now: u64)
        ensures
            *final(self) == (DetailedTiming { tcp_end: Some(now), ..*old(self) }),
    {
        self.tcp_end = Some(now);
    }

    /// The TLS handshake begins at `now`.
    pub fn start_tls(&mut self, now: u64)
        ensures
            *final(self) == (DetailedTiming { tls_start: Some(now), ..*old(self) }),
    {
        self.tls_start = Some(now);
    }

    /// The TLS handshake ends at `now`.
    pub fn end_tls(&mut self, now: u64)
        ensures
            *final(self) == (DetailedTiming { tls_end: Some(now), ..*old(self) }),
    {
        self.tls_end = Some(now);
    }

    /// The request is sent at `now`.
    pub fn start_request(&mut self, now: u64)
        ensures
            *final(self) == (DetailedTiming { request_start: Some(now), ..*old(self) }),
    {
        self.request_start = Some(now);
    }

    /// The first byte of the response arrives at `now`.
    pub fn mark_ttfb(&mut self, now: u64)
        ensures
            *final(self) == (DetailedTiming { ttfb: Some(now), ..*old(self) }),
    {
        self.ttfb = Some(now);
    }

    /// The download of the body begins at `now`.
    pub fn start_download(&mut self, now: u64)
        ensures
            *final(self) == (DetailedTiming { download_start: Some(now), ..*old(self) }),
    {
        self.download_start = Some(now);
    }

    /// The download of the body ends at `now`.
    pub fn end_download(&mut self, now: u64)
        ensures
            *final(self) == (DetailedTiming { download_end: Some(now), ..*old(self) }),
    {
        self.download_end = Some(now);
    }
}

/// A phase that ends no earlier than it began lasts the whole milliseconds
/// that lie between its two instants.
pub proof fn lemma_phase_duration(start: u64, end: u64)
    requires
        in_order(Some(start), Some(end)),
    ensures
        phase_ms(Some(start), Some(end)) == Some(((end - start) / 1000000) as u64),
        start <= end,
{
}

} // verus!
