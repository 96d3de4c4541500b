//! The error taxonomy: one rendering per variant, with exact expected lines.

use mambo_tts::error::{u16_decimal, TtsError};

#[test]
fn decimal_renders_exactly() {
    assert_eq!(u16_decimal(0), "0");
    assert_eq!(u16_decimal(7), "7");
    assert_eq!(u16_decimal(10), "10");
    assert_eq!(u16_decimal(200), "200");
    assert_eq!(u16_decimal(401), "401");
    assert_eq!(u16_decimal(65535), "65535");
}

#[test]
fn network_failure_message() {
    let e = TtsError::NetworkFailure {
        detail: "dns error".to_string(),
    };
    assert_eq!(e.message(), "network request failed: dns error");
}

#[test]
fn response_parse_failure_message() {
    let e = TtsError::ResponseParseFailure {
        detail: "expected value at line 1".to_string(),
    };
    assert_eq!(
        e.message(),
        "failed to parse the response: expected value at line 1"
    );
}

#[test]
fn api_error_message() {
    let e = TtsError::ApiError {
        status: 503,
        msg: "overloaded".to_string(),
    };
    assert_eq!(e.message(), "API error 503: overloaded");
}

#[test]
fn missing_field_message() {
    let e = TtsError::MissingField {
        field: "url".to_string(),
    };
    assert_eq!(e.message(), "the response is missing the url field");
}

#[test]
fn download_failure_message() {
    let e = TtsError::DownloadFailure {
        detail: "timeout".to_string(),
    };
    assert_eq!(e.message(), "download failed: timeout");
}

#[test]
fn read_failure_message() {
    let e = TtsError::ReadFailure {
        detail: "reset".to_string(),
    };
    assert_eq!(e.message(), "failed to read the audio bytes: reset");
}

#[test]
fn write_failure_message() {
    let e = TtsError::WriteFailure {
        detail: "disk full".to_string(),
    };
    assert_eq!(e.message(), "failed to write the file: disk full");
}
