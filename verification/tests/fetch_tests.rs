use warpfox::errors::Operation;
use warpfox::errors::PipelineError;
use warpfox::fetch::accept_response;
use warpfox::fetch::archive_filename;
use warpfox::fetch::check_status;
use warpfox::fetch::count_stream;
use warpfox::fetch::download_url;
use warpfox::fetch::require_content_length;
use warpfox::fetch::DownloadProgress;

#[test]
fn url_matches_fixed_template() {
    assert_eq!(
        download_url("128.0"),
        "https://archive.mozilla.org/pub/firefox/releases/128.0/source/firefox-128.0.source.tar.xz"
    );
    assert_eq!(
        download_url("115.2.1esr"),
        "https://archive.mozilla.org/pub/firefox/releases/115.2.1esr/source/firefox-115.2.1esr.source.tar.xz"
    );
}

#[test]
fn filename_matches_version() {
    assert_eq!(archive_filename("128.0"), "firefox-128.0.source.tar.xz");
    assert_eq!(archive_filename("99"), "firefox-99.source.tar.xz");
}

#[test]
fn url_ends_with_archive_filename() {
    let url = download_url("128.0");
    let name = archive_filename("128.0");
    assert_eq!(url.rsplit('/').next().unwrap(), name.as_str());
}

#[test]
fn success_statuses_pass() {
    assert!(check_status(200).is_ok());
    assert!(check_status(204).is_ok());
    assert!(check_status(299).is_ok());
}

#[test]
fn non_success_status_is_network_error() {
    for status in [101u16, 301, 304, 404, 500, 503] {
        let r = check_status(status);
        assert_eq!(
            r,
            Err(PipelineError::Network {
                op: Operation::HttpGet
            })
        );
    }
}

#[test]
fn timeout_is_distinct_from_bad_status() {
    // A timeout while awaiting the initial response and a non-success
    // status are different failures, though both are network errors.
    let timed_out = PipelineError::Network {
        op: Operation::AwaitResponse,
    };
    let bad_status = check_status(504).unwrap_err();
    assert_ne!(timed_out, bad_status);
    assert_eq!(
        timed_out.describe(),
        "network error while awaiting the initial response"
    );
}

#[test]
fn missing_content_length_is_protocol_error() {
    assert_eq!(require_content_length(Some(42)), Ok(42));
    assert_eq!(
        require_content_length(None),
        Err(PipelineError::Protocol {
            op: Operation::HttpGet
        })
    );
}

#[test]
fn response_is_admitted_only_with_status_and_length() {
    assert_eq!(accept_response(200, Some(1000)), Ok(1000));
    // The status is checked before the content length.
    assert_eq!(
        accept_response(404, None),
        Err(PipelineError::Network {
            op: Operation::HttpGet
        })
    );
    assert_eq!(
        accept_response(200, None),
        Err(PipelineError::Protocol {
            op: Operation::HttpGet
        })
    );
}

#[test]
fn counter_tracks_exact_total() {
    let mut p = DownloadProgress::new(12);
    p.record_chunk(4);
    assert_eq!(p.downloaded, 4);
    p.record_chunk(4);
    p.record_chunk(4);
    assert_eq!(p.downloaded, 12);
    assert!(p.is_complete());
}

#[test]
fn short_stream_stays_below_declared_total() {
    // The stream carries fewer bytes than the declared content length.
    let chunks: Vec<u64> = vec![10, 20];
    let p = count_stream(100, &chunks);
    assert_eq!(p.downloaded, 30);
    assert!(p.downloaded <= p.total);
    assert!(!p.is_complete());
}

#[test]
fn overlong_stream_is_clamped_to_declared_total() {
    // The stream carries more bytes than the declared content length:
    // the counter is clamped and never exceeds the total.
    let chunks: Vec<u64> = vec![40, 40, 40];
    let p = count_stream(100, &chunks);
    assert_eq!(p.downloaded, 100);
    assert!(p.downloaded <= p.total);
}

#[test]
fn clamping_survives_huge_chunks() {
    let mut p = DownloadProgress::new(50);
    p.record_chunk(u64::MAX);
    assert_eq!(p.downloaded, 50);
    p.record_chunk(1);
    assert_eq!(p.downloaded, 50);
}

#[test]
fn empty_stream_counts_nothing() {
    let chunks: Vec<u64> = vec![];
    let p = count_stream(7, &chunks);
    assert_eq!(p.downloaded, 0);
}
