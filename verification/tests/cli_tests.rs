use transcribe::credential::{key_from_file, key_from_prompt, SAVED};
use transcribe::orchestrator::{Orchestrator, Step};
use transcribe::output::output_file_name;
use transcribe::progress::ProgressTracker;
use transcribe::request::InputDescriptor;
use transcribe::retry::{Response, DEFAULT_MAX_ATTEMPTS};

const TRANSCRIPT: &str =
    "{\"results\":{\"channels\":[{\"alternatives\":[{\"transcript\":\"hello world\"}]}]}}";

struct Answer {
    status: u16,
    body: &'static str,
}

struct Ended {
    shown: String,
    error: Option<String>,
    requests: u32,
}

fn run(input: &str, is_file: bool, key: &str, answer: Answer) -> Ended {
    let mut progress = ProgressTracker::new();
    let mut run = Orchestrator::new(
        InputDescriptor::from_args(input.to_string(), is_file),
        key.to_string(),
        DEFAULT_MAX_ATTEMPTS,
    );
    let mut step = run.begin(&mut progress);
    let error = loop {
        step = match step {
            Step::Prepare { .. } | Step::Pause { .. } => run.build(None, &mut progress),
            Step::Send(_) => run.on_response(
                Response { status: answer.status, body: answer.body.to_string() },
                &mut progress,
            ),
            Step::Deliver { .. } => run.on_written(true, &mut progress),
            Step::Fail(error) => break Some(error.message()),
            Step::Finish { .. } | Step::Idle => break None,
        };
    };
    Ended { shown: progress.snapshot().message, error, requests: run.requests_sent() }
}

#[test]
fn test_invalid_url() {
    let ended = run("not_a_url", false, "key", Answer { status: 200, body: TRANSCRIPT });
    assert!(ended.error.unwrap().contains("Invalid URL provided"));
    assert_eq!(ended.requests, 0);
}

#[test]
fn test_valid_url() {
    let ended = run(
        "https://utfs.io/f/70e48391-743c-4b3f-a42e-c48175fdbcca-7ontaw.m4a",
        false,
        "key",
        Answer { status: 200, body: TRANSCRIPT },
    );
    assert_eq!(ended.error, None);
    assert!(ended.shown.contains("Transcription successful"));
}

#[test]
fn test_api_key_prompt() {
    let valid_api_key = "0123456789abcdef0123456789abcdef01234567";
    let typed = key_from_prompt(&format!("{}\n", valid_api_key));
    assert_eq!(typed, valid_api_key);
    assert!(SAVED.contains("API key saved"));
    assert_eq!(key_from_file(&typed), Ok(valid_api_key.to_string()));
}

#[test]
fn test_invalid_api_key() {
    let key = key_from_file("invalid_key_for_testing").unwrap();
    let ended = run(
        "https://utfs.io/f/70e48391-743c-4b3f-a42e-c48175fdbcca-7ontaw.m4a",
        false,
        &key,
        Answer { status: 401, body: "{\"err_code\":\"INVALID_AUTH\"}" },
    );
    assert!(ended.error.unwrap().contains("Invalid API key"));
    assert_eq!(ended.requests, 1);
}

#[test]
fn test_network_error() {
    let ended = run(
        "https://nonexistent-url.com/audio.mp3",
        false,
        "key",
        Answer { status: 400, body: "{\"err_code\":\"REMOTE_CONTENT_ERROR\"}" },
    );
    assert!(ended.error.unwrap().contains("API request failed"));
    assert_eq!(ended.requests, 1);
}

#[test]
fn test_output_file_creation() {
    let ended = run(
        "https://utfs.io/f/70e48391-743c-4b3f-a42e-c48175fdbcca-7ontaw.m4a",
        false,
        "key",
        Answer { status: 200, body: TRANSCRIPT },
    );
    assert!(ended.shown.contains("Transcription successful"));
    assert!(output_file_name(1700000000).unwrap().starts_with("transcription-"));
    assert_eq!(ended.error, None);
}
