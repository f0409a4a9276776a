use transcribe::error::{api_failure_message, BuildError, Malformation, TranscriptionError};

#[test]
fn every_failure_has_its_text() {
    assert_eq!(TranscriptionError::Input(BuildError::InvalidUrl).message(), "Invalid URL provided");
    assert_eq!(
        TranscriptionError::Input(BuildError::NotFound).message(),
        "Input file not found or not readable"
    );
    assert_eq!(BuildError::InvalidUrl.message(), "Invalid URL provided");
    assert_eq!(TranscriptionError::InvalidApiKey.message(), "Invalid API key");
    assert_eq!(
        TranscriptionError::MaxRetriesExceeded.message(),
        "Max retries reached. Unable to connect to Deepgram API."
    );
    assert_eq!(
        TranscriptionError::MalformedResponse(Malformation::NotJson).message(),
        "Failed to parse API response"
    );
    assert_eq!(
        TranscriptionError::MalformedResponse(Malformation::NoTranscript).message(),
        "Failed to extract transcript"
    );
}

#[test]
fn an_api_failure_prints_code_and_reason() {
    let text = |status: u16| {
        TranscriptionError::ApiError { status, body: "ignored".to_string() }.message()
    };
    assert_eq!(text(400), "API request failed with status: 400 Bad Request");
    assert_eq!(text(404), "API request failed with status: 404 Not Found");
    assert_eq!(text(500), "API request failed with status: 500 Internal Server Error");
    assert_eq!(text(100), "API request failed with status: 100 Continue");
    assert_eq!(text(999), "API request failed with status: 999 <unknown status code>");
}

#[test]
fn a_number_that_is_no_status_is_said_to_be_none() {
    for status in [0u16, 99, 1000, u16::MAX] {
        assert_eq!(
            TranscriptionError::ApiError { status, body: String::new() }.message(),
            "API request failed with status: invalid status code"
        );
    }
}

#[test]
fn the_text_is_put_around_a_given_status() {
    assert_eq!(
        api_failure_message(Some("418 I'm a teapot".to_string())),
        "API request failed with status: 418 I'm a teapot"
    );
    assert_eq!(
        api_failure_message(None),
        "API request failed with status: invalid status code"
    );
}

#[test]
fn only_a_refused_key_asks_for_the_key() {
    assert!(TranscriptionError::InvalidApiKey.is_invalid_api_key());
    assert!(!TranscriptionError::MaxRetriesExceeded.is_invalid_api_key());
    assert!(!TranscriptionError::ApiError { status: 401, body: String::new() }.is_invalid_api_key());
}
