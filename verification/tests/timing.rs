use http_visualizer_app::shared::timing::{millis_between, phase_millis, DetailedTiming};

const MS: u64 = 1_000_000;

#[test]
fn test_new_timing() {
    let timing = DetailedTiming::new(0);
    assert!(timing.dns_start.is_none());
    assert!(timing.dns_end.is_none());
}

#[test]
fn test_timing_phases() {
    let mut timing = DetailedTiming::new(0);

    timing.start_dns(0);
    timing.end_dns(MS);

    timing.start_tcp(MS);
    timing.end_tcp(2 * MS);

    timing.start_download(2 * MS);
    timing.end_download(3 * MS);

    let info = timing.to_timing_info(10 * MS);
    assert!(info.dns.is_some());
    assert!(info.tcp.is_some());
    assert!(info.download.is_some());
    assert!(info.total >= 3);
}

#[test]
fn new_record_has_no_phase() {
    let timing = DetailedTiming::new(42);
    assert_eq!(timing.total_start, 42);
    assert!(timing.tcp_start.is_none());
    assert!(timing.tcp_end.is_none());
    assert!(timing.tls_start.is_none());
    assert!(timing.tls_end.is_none());
    assert!(timing.request_start.is_none());
    assert!(timing.ttfb.is_none());
    assert!(timing.download_start.is_none());
    assert!(timing.download_end.is_none());
}

#[test]
fn durations_are_whole_milliseconds() {
    let mut timing = DetailedTiming::new(5 * MS);
    timing.start_dns(5 * MS);
    timing.end_dns(5 * MS + 1_999_999);
    timing.start_tcp(8 * MS);
    timing.end_tcp(20 * MS);
    timing.start_tls(20 * MS);
    timing.end_tls(20 * MS + 999_999);
    timing.start_request(21 * MS);
    timing.mark_ttfb(121 * MS);
    timing.start_download(121 * MS);
    timing.end_download(200 * MS + 1);

    let info = timing.to_timing_info(999 * MS);
    assert_eq!(info.dns, Some(1));
    assert_eq!(info.tcp, Some(12));
    assert_eq!(info.tls, Some(0));
    assert_eq!(info.ttfb, Some(100));
    assert_eq!(info.download, Some(79));
    assert_eq!(info.total, 195);
    assert_eq!(info.blocked, Some(0));
}

#[test]
fn total_runs_to_now_until_the_download_ends() {
    let mut timing = DetailedTiming::new(10 * MS);
    timing.start_dns(10 * MS);
    let info = timing.to_timing_info(25 * MS);
    assert_eq!(info.total, 15);
    assert_eq!(info.dns, None);
    assert_eq!(info.tcp, None);
    assert_eq!(info.tls, None);
    assert_eq!(info.ttfb, None);
    assert_eq!(info.download, None);
}

#[test]
fn a_phase_that_ends_before_it_began_lasts_nothing() {
    let mut timing = DetailedTiming::new(0);
    timing.start_dns(9 * MS);
    timing.end_dns(3 * MS);
    let info = timing.to_timing_info(0);
    assert_eq!(info.dns, Some(0));
    assert_eq!(millis_between(9 * MS, 3 * MS), 0);
    assert_eq!(millis_between(3 * MS, 9 * MS), 6);
    assert_eq!(phase_millis(Some(1), None), None);
    assert_eq!(phase_millis(None, Some(1)), None);
    assert_eq!(phase_millis(Some(0), Some(u64::MAX)), Some(u64::MAX / 1_000_000));
}

#[test]
fn marks_overwrite_one_instant_each() {
    let mut timing = DetailedTiming::new(0);
    timing.start_tls(7);
    timing.end_tls(9);
    assert_eq!(timing.tls_start, Some(7));
    assert_eq!(timing.tls_end, Some(9));
    assert!(timing.dns_start.is_none());
    timing.start_tls(8);
    assert_eq!(timing.tls_start, Some(8));
    assert_eq!(timing.tls_end, Some(9));
}
