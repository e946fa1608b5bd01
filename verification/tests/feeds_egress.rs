// The rules that a downloaded feed has to meet.

use amity_service::feeds::{FeedDownload, FetchError, MAX_FEED_BYTES};

const FEED_CAP_BYTES: usize = 5 * 1024 * 1024;

const SMALL_ICS: &str = "BEGIN:VCALENDAR\r\nVERSION:2.0\r\nBEGIN:VEVENT\r\nUID:x\r\nSUMMARY:Hi\r\nDTSTART:20990101T090000Z\r\nEND:VEVENT\r\nEND:VCALENDAR\r\n";

// What comes of a response with the given status and chunks.
fn fetch(status: u16, chunks: &[&[u8]]) -> Result<String, FetchError> {
    let mut download = FeedDownload::start(status)?;
    for chunk in chunks {
        download = download.receive(chunk)?;
    }
    download.finish()
}

#[test]
fn a_2xx_response_returns_the_raw_body() {
    assert_eq!(fetch(200, &[SMALL_ICS.as_bytes()]).unwrap(), SMALL_ICS);
}

#[test]
fn a_non_2xx_status_maps_to_bad_status() {
    let err = fetch(503, &[b"upstream is down"]).unwrap_err();
    assert!(matches!(err, FetchError::BadStatus(503)));
}

#[test]
fn a_body_over_the_cap_is_refused_as_too_large() {
    let oversize = "A".repeat(FEED_CAP_BYTES + 1);
    let err = fetch(200, &[oversize.as_bytes()]).unwrap_err();
    assert!(matches!(err, FetchError::TooLarge));
}

#[test]
fn a_body_exactly_at_the_cap_still_succeeds() {
    let at_cap = "A".repeat(FEED_CAP_BYTES);
    let body = fetch(200, &[at_cap.as_bytes()]).unwrap();
    assert_eq!(body.len(), FEED_CAP_BYTES);
    assert_eq!(body, at_cap);
    assert_eq!(MAX_FEED_BYTES, FEED_CAP_BYTES);
}

#[test]
fn chunks_are_counted_together() {
    let half = "A".repeat(FEED_CAP_BYTES / 2);
    let body = fetch(200, &[half.as_bytes(), half.as_bytes()]).unwrap();
    assert_eq!(body.len(), FEED_CAP_BYTES);
    let err = fetch(200, &[half.as_bytes(), half.as_bytes(), b"A"]).unwrap_err();
    assert!(matches!(err, FetchError::TooLarge));
}

#[test]
fn every_2xx_status_starts_a_download() {
    for status in [200u16, 204, 299] {
        assert_eq!(fetch(status, &[]).unwrap(), "");
    }
    for status in [100u16, 199, 300, 302, 404, 500] {
        match fetch(status, &[]) {
            Err(FetchError::BadStatus(code)) => assert_eq!(code, status),
            _ => panic!("{status} starts no download"),
        }
    }
}

#[test]
fn a_character_may_straddle_two_chunks() {
    let text = "fête ☀".as_bytes();
    assert_eq!(fetch(200, &[&text[..2], &text[2..7], &text[7..]]).unwrap(), "fête ☀");
}

#[test]
fn a_body_that_is_no_text_is_a_failed_request() {
    match fetch(200, &[b"ok", &[0xff, 0xfe]]) {
        Err(FetchError::Request(message)) => assert!(message.contains("utf-8")),
        _ => panic!("the body is no text"),
    }
}

#[test]
fn failures_have_messages() {
    assert_eq!(FetchError::BadStatus(503).message(), "unexpected status: 503");
    assert_eq!(FetchError::TooLarge.message(), "response exceeded 5242880 bytes");
    let request = FetchError::Request("timed out".to_string());
    assert_eq!(request.message(), "request failed: timed out");
}
