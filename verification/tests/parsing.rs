use cursor_migrate::errors::{SinkError, SourceError};
use cursor_migrate::sink::{interpret_sink_reply, FlushCounts, SinkReply};
use cursor_migrate::source::{classify_fetch, extract_page, SourceReply};

#[test]
fn extract_page_reads_all_fields() {
    let r = extract_page(SourceReply {
        error_present: false,
        cursor_token: Some(String::from("tok")),
        record_count: Some(5),
        total_matches: Some(42),
    })
    .unwrap();
    assert_eq!(r.cursor_token, "tok");
    assert_eq!(r.record_count, 5);
    assert_eq!(r.total_matches, 42);
}

#[test]
fn extract_page_defaults_missing_total_to_zero() {
    let r = extract_page(SourceReply {
        error_present: false,
        cursor_token: Some(String::from("tok")),
        record_count: Some(1),
        total_matches: None,
    })
    .unwrap();
    assert_eq!(r.total_matches, 0);
}

#[test]
fn extract_page_body_error_is_unavailable() {
    let r = extract_page(SourceReply {
        error_present: true,
        cursor_token: Some(String::from("tok")),
        record_count: Some(1),
        total_matches: Some(1),
    });
    assert_eq!(r.unwrap_err(), SourceError::SourceUnavailable);
}

#[test]
fn extract_page_missing_token_is_malformed() {
    let r = extract_page(SourceReply {
        error_present: false,
        cursor_token: None,
        record_count: Some(1),
        total_matches: Some(1),
    });
    assert_eq!(r.unwrap_err(), SourceError::MalformedResponse);
}

#[test]
fn extract_page_missing_records_is_malformed() {
    let r = extract_page(SourceReply {
        error_present: false,
        cursor_token: Some(String::from("tok")),
        record_count: None,
        total_matches: Some(1),
    });
    assert_eq!(r.unwrap_err(), SourceError::MalformedResponse);
}

#[test]
fn classify_fetch_session_gone_is_expired() {
    let r = classify_fetch(
        false,
        true,
        SourceReply {
            error_present: false,
            cursor_token: None,
            record_count: None,
            total_matches: None,
        },
    );
    assert_eq!(r.unwrap_err(), SourceError::CursorExpired);
}

#[test]
fn classify_fetch_bad_transport_is_unavailable() {
    let r = classify_fetch(
        false,
        false,
        SourceReply {
            error_present: false,
            cursor_token: None,
            record_count: None,
            total_matches: None,
        },
    );
    assert_eq!(r.unwrap_err(), SourceError::SourceUnavailable);
}

#[test]
fn classify_fetch_success_reads_the_body() {
    let r = classify_fetch(
        true,
        false,
        SourceReply {
            error_present: false,
            cursor_token: Some(String::from("tok")),
            record_count: Some(3),
            total_matches: Some(9),
        },
    )
    .unwrap();
    assert_eq!(r.cursor_token, "tok");
    assert_eq!(r.record_count, 3);
    assert_eq!(r.total_matches, 9);
}

#[test]
fn sink_transport_failure_is_an_error() {
    let r = interpret_sink_reply(SinkReply {
        transport_ok: false,
        successful: Some(2),
        failed: Some(0),
    });
    assert_eq!(r.unwrap_err(), SinkError::TransportFailure);
}

#[test]
fn sink_counts_are_read_from_the_status() {
    let r = interpret_sink_reply(SinkReply {
        transport_ok: true,
        successful: Some(2),
        failed: Some(1),
    })
    .unwrap();
    assert_eq!(r, FlushCounts { successful: 2, failed: 1 });
}

#[test]
fn sink_counts_default_to_zero_when_absent() {
    let r = interpret_sink_reply(SinkReply {
        transport_ok: true,
        successful: None,
        failed: None,
    })
    .unwrap();
    assert_eq!(r, FlushCounts { successful: 0, failed: 0 });
}

#[test]
fn ingest_url_is_assembled_exactly() {
    let url = cursor_migrate::sink::ingest_url("http://sink:5080", "default", "events");
    assert_eq!(url, "http://sink:5080/api/default/events/_json");
}
