use hypersync::digits::parse_u64;
use hypersync::download::{plan_request, range_header_value, total_size_from_head, DownloadSession};
use hypersync::errors::DownloadError;
use hypersync::paths::{archive_file_name, marker_rel_path, snapshot_url};

#[test]
fn range_header_exact_values() {
    assert_eq!(range_header_value(0), "bytes=0-");
    assert_eq!(range_header_value(400), "bytes=400-");
    assert_eq!(range_header_value(u64::MAX), "bytes=18446744073709551615-");
}

#[test]
fn parse_u64_exact_values() {
    assert_eq!(parse_u64("0"), Some(0));
    assert_eq!(parse_u64("1000"), Some(1000));
    assert_eq!(parse_u64("18446744073709551615"), Some(u64::MAX));
    // Too large, empty, signed, or junk: no value.
    assert_eq!(parse_u64("18446744073709551616"), None);
    assert_eq!(parse_u64(""), None);
    assert_eq!(parse_u64("-5"), None);
    assert_eq!(parse_u64("12a"), None);
    assert_eq!(parse_u64(" 12"), None);
}

#[test]
fn head_size_cases() {
    // Failed or non-success metadata request: unknown size, recorded as -1.
    assert_eq!(total_size_from_head(false, None), -1);
    assert_eq!(total_size_from_head(false, Some("1000")), -1);
    // Success without a usable header degrades to zero.
    assert_eq!(total_size_from_head(true, None), 0);
    assert_eq!(total_size_from_head(true, Some("not-a-number")), 0);
    assert_eq!(total_size_from_head(true, Some("9223372036854775808")), 0);
    // Success with a parseable header: the exact value.
    assert_eq!(total_size_from_head(true, Some("1000")), 1000);
    assert_eq!(total_size_from_head(true, Some("9223372036854775807")), i64::MAX);
}

#[test]
fn plan_request_parses_and_normalizes_url() {
    // The outside URL parser really runs: scheme and host are lowercased.
    let plan = plan_request("HTTPS://EXAMPLE.COM/Chain_Data.zip", None).unwrap();
    assert_eq!(plan.url, "https://example.com/Chain_Data.zip");
    assert!(plan.range_header.is_none());
}

#[test]
fn plan_request_rejects_bad_url() {
    let err = plan_request("not a url at all", None).unwrap_err();
    assert_eq!(err, DownloadError::UrlParse);
    assert!(!err.is_fatal());
}

#[test]
fn plan_request_resumes_at_exact_existing_length() {
    // A pre-existing destination of length 400 must request bytes [400, end).
    let plan = plan_request(snapshot_url(), Some(400)).unwrap();
    assert_eq!(plan.range_header.as_deref(), Some("bytes=400-"));
    // A zero-length leftover file still resumes at its exact length.
    let plan0 = plan_request(snapshot_url(), Some(0)).unwrap();
    assert_eq!(plan0.range_header.as_deref(), Some("bytes=0-"));
}

#[test]
fn resume_scenario_400_of_1000() {
    // Destination pre-exists with 400 bytes, remote size 1000: the range
    // request asks for bytes 400-999, and after the 600 remaining bytes
    // stream in the file is exactly 1000 bytes long.
    let mut session = DownloadSession::begin(1000, Some(400));
    assert_eq!(session.resume_offset, 400);
    let mut received = 0u64;
    for chunk in [256u64, 256, 88] {
        session.record(chunk);
        received += chunk;
    }
    assert_eq!(received, 600);
    assert_eq!(session.expected_final_length(), 1000);
}

#[test]
fn errors_are_never_fatal() {
    let all = [
        DownloadError::UrlParse,
        DownloadError::Network,
        DownloadError::SizeUnknown,
        DownloadError::FileOpen,
        DownloadError::Extraction,
        DownloadError::PathResolution,
    ];
    for e in all {
        assert!(!e.is_fatal());
    }
}

#[test]
fn fixed_paths() {
    assert_eq!(
        snapshot_url(),
        "https://d1joz5daoz8ntk.cloudfront.net/bg_chain_data07282019.zip"
    );
    assert_eq!(archive_file_name(), "bg_chain_data2.zip");
    assert_eq!(marker_rel_path(), "header/header_head/pmmr_data.bin");
}
