//! The synthesis side: format normalization, request construction, and the
//! judgment of response envelopes, both parsed and straight off the wire.

use mambo_tts::error::TtsError;
use mambo_tts::synth::{
    build_synthesis_request, envelope_to_url, interpret_synthesis_response, normalize_format,
    Envelope,
};

#[test]
fn format_wav_is_kept() {
    assert_eq!(normalize_format("wav"), "wav");
}

#[test]
fn format_anything_else_falls_back_to_mp3() {
    assert_eq!(normalize_format("mp3"), "mp3");
    assert_eq!(normalize_format(""), "mp3");
    assert_eq!(normalize_format("MP3"), "mp3");
    assert_eq!(normalize_format("Wav"), "mp3");
    assert_eq!(normalize_format("WAV"), "mp3");
    assert_eq!(normalize_format("arbitrary garbage"), "mp3");
    assert_eq!(normalize_format("wav "), "mp3");
    assert_eq!(normalize_format("ogg"), "mp3");
}

#[test]
fn request_carries_endpoint_text_format_and_credential() {
    let r = build_synthesis_request("hello".to_string(), "key123".to_string(), "wav");
    assert_eq!(r.endpoint, "https://api.milorapart.top/apis/mbAIsc");
    assert_eq!(r.query_text, "hello");
    assert_eq!(r.query_format, "wav");
    assert_eq!(r.bearer_token, "key123");
}

#[test]
fn request_normalizes_the_format() {
    let r = build_synthesis_request("hi".to_string(), "k".to_string(), "FLAC");
    assert_eq!(r.query_format, "mp3");
}

#[test]
fn envelope_success_returns_the_exact_url() {
    let env = Envelope {
        code: Some(200),
        msg: None,
        url: Some("https://x/y/audio.wav".to_string()),
    };
    assert_eq!(
        envelope_to_url(200, &env),
        Ok("https://x/y/audio.wav".to_string())
    );
}

#[test]
fn envelope_success_ignores_a_msg_field() {
    let env = Envelope {
        code: Some(200),
        msg: Some("fine".to_string()),
        url: Some("u".to_string()),
    };
    assert_eq!(envelope_to_url(200, &env), Ok("u".to_string()));
}

#[test]
fn envelope_failure_carries_the_api_msg() {
    let env = Envelope {
        code: Some(401),
        msg: Some("bad key".to_string()),
        url: None,
    };
    let err = envelope_to_url(401, &env).unwrap_err();
    assert_eq!(
        err,
        TtsError::ApiError {
            status: 401,
            msg: "bad key".to_string()
        }
    );
    assert!(err.message().contains("bad key"));
}

#[test]
fn envelope_failure_without_msg_uses_the_fallback() {
    let env = Envelope {
        code: Some(500),
        msg: None,
        url: Some("ignored".to_string()),
    };
    let err = envelope_to_url(502, &env).unwrap_err();
    assert_eq!(
        err,
        TtsError::ApiError {
            status: 502,
            msg: "unknown error".to_string()
        }
    );
}

#[test]
fn envelope_missing_code_counts_as_failure() {
    let env = Envelope {
        code: None,
        msg: None,
        url: Some("https://x/y".to_string()),
    };
    let err = envelope_to_url(200, &env).unwrap_err();
    assert_eq!(
        err,
        TtsError::ApiError {
            status: 200,
            msg: "unknown error".to_string()
        }
    );
}

#[test]
fn envelope_success_without_url_is_a_missing_field() {
    let env = Envelope {
        code: Some(200),
        msg: Some("ok".to_string()),
        url: None,
    };
    let err = envelope_to_url(200, &env).unwrap_err();
    assert_eq!(
        err,
        TtsError::MissingField {
            field: "url".to_string()
        }
    );
}

#[test]
fn wire_success_returns_the_exact_url() {
    let r = interpret_synthesis_response(200, "{\"code\":200,\"url\":\"https://x/y/audio.wav\"}");
    assert_eq!(r, Ok("https://x/y/audio.wav".to_string()));
}

#[test]
fn wire_failure_message_includes_the_api_msg() {
    let r = interpret_synthesis_response(401, "{\"code\":401,\"msg\":\"bad key\"}");
    let err = r.unwrap_err();
    assert_eq!(
        err,
        TtsError::ApiError {
            status: 401,
            msg: "bad key".to_string()
        }
    );
    assert!(err.message().contains("bad key"));
    assert_eq!(err.message(), "API error 401: bad key");
}

#[test]
fn wire_invalid_json_is_a_parse_failure() {
    let err = interpret_synthesis_response(200, "raw audio bytes").unwrap_err();
    assert!(matches!(err, TtsError::ResponseParseFailure { .. }));
    assert!(err.message().starts_with("failed to parse the response: "));
}

#[test]
fn wire_non_integer_code_counts_as_failure() {
    let err = interpret_synthesis_response(200, "{\"code\":\"200\",\"url\":\"u\"}").unwrap_err();
    assert_eq!(
        err,
        TtsError::ApiError {
            status: 200,
            msg: "unknown error".to_string()
        }
    );
}

#[test]
fn wire_non_string_url_is_a_missing_field() {
    let err = interpret_synthesis_response(200, "{\"code\":200,\"url\":7}").unwrap_err();
    assert_eq!(
        err,
        TtsError::MissingField {
            field: "url".to_string()
        }
    );
}

#[test]
fn wire_success_with_float_code_is_a_failure() {
    // 200.0 is a JSON number but not an integer: code is read as missing
    let err = interpret_synthesis_response(200, "{\"code\":200.5,\"url\":\"u\"}").unwrap_err();
    assert!(matches!(err, TtsError::ApiError { status: 200, .. }));
}
