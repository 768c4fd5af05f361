use hypersync::download::DownloadSession;
use hypersync::extract::expected_file;
use hypersync::progress::ProgressCounter;
use hypersync::state::{bootstrap_actions, evaluate, BootstrapState};

#[test]
fn reports_only_past_ten_point_crossings() {
    let mut c = ProgressCounter::start(1000);
    // 5%: not past the first crossing (needs more than 10 points).
    assert_eq!(c.inc(50), None);
    // 15%: more than 10 points above the 0 baseline.
    assert_eq!(c.inc(100), Some(15));
    // 16%..25%: not more than 10 points above the last report (15).
    assert_eq!(c.inc(10), None);
    assert_eq!(c.inc(90), None);
    // 26%: crosses again.
    assert_eq!(c.inc(10), Some(26));
}

#[test]
fn counter_never_decreases() {
    let mut c = ProgressCounter::start(1000);
    let mut last = 0u64;
    for chunk in [50u64, 0, 100, 10, 90, 10, 700, 0] {
        c.inc(chunk);
        assert!(c.bytes_downloaded >= last);
        last = c.bytes_downloaded;
    }
    assert_eq!(c.bytes_downloaded, 960);
}

#[test]
fn unknown_or_zero_size_never_reports() {
    // Unknown size (-1) must not fault the percentage computation, and
    // suppresses progress reporting entirely.
    let mut unknown = ProgressCounter::start(-1);
    assert_eq!(unknown.inc(1_000_000), None);
    assert_eq!(unknown.inc(u64::MAX / 2), None);
    // So does a zero total.
    let mut zero = ProgressCounter::start(0);
    assert_eq!(zero.inc(500), None);
}

#[test]
fn overshooting_total_clamps_at_hundred() {
    let mut c = ProgressCounter::start(100);
    assert_eq!(c.inc(250), Some(100));
    // Already at 100: nothing further can exceed it by ten points.
    assert_eq!(c.inc(1000), None);
}

#[test]
fn full_bootstrap_scenario() {
    // Marker absent, archive absent, remote size 1000.
    let state = evaluate(false, false, false);
    assert_eq!(state, BootstrapState::NeedsDownload);
    let (download, extract) = bootstrap_actions(state);
    assert!(download && extract);

    // The download runs to completion: no pre-existing destination file.
    let mut session = DownloadSession::begin(1000, None);
    assert_eq!(session.resume_offset, 0);
    session.record(600);
    session.record(400);
    assert_eq!(session.expected_final_length(), 1000);

    // The archive now exists: a fresh evaluation says extract.
    let state = evaluate(false, false, true);
    assert_eq!(state, BootstrapState::NeedsExtract);
    let (download, extract) = bootstrap_actions(state);
    assert!(!download && extract);

    // Extraction approves every entry and succeeds; the marker now exists.
    assert!(expected_file("header/header_head/pmmr_data.bin"));
    assert!(expected_file("anything/else.bin"));
    let state = evaluate(true, true, true);
    assert_eq!(state, BootstrapState::NotNeeded);
    let (download, extract) = bootstrap_actions(state);
    assert!(!download && !extract);
}
