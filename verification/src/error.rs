//! The ways a run can fail, and the text shown for each.

use vstd::prelude::*;
use vstd::string::*;

verus! {

/// Why no request could be built from the input.
#[derive(Clone, Copy, Debug, PartialEq, Eq, Structural)]
pub enum BuildError {
    /// The local file does not exist or cannot be opened.
    NotFound,
    /// The remote reference is not a well-formed URL.
    InvalidUrl,
}

/// Which part of a successful response was unusable.
#[derive(Clone, Copy, Debug, PartialEq, Eq, Structural)]
pub enum Malformation {
    /// The body is not a JSON document.
    NotJson,
    /// The document has no transcript at the expected place.
    NoTranscript,
}

/// Why the transcript could not be taken out of a document.
#[derive(Clone, Copy, Debug, PartialEq, Eq, Structural)]
pub enum ExtractError {
    MalformedResponse,
}

/// Terminal failure of a run.
#[derive(Debug, PartialEq, Eq)]
pub enum TranscriptionError {
    /// The input was rejected before any request was made.
    Input(BuildError),
    /// The service answered 401.
    InvalidApiKey,
    /// The service answered with another error status.
    ApiError { status: u16, body: String },
    /// Every allowed attempt failed in transport.
    MaxRetriesExceeded,
    /// The service answered with success, but not with a transcript.
    MalformedResponse(Malformation),
}

/// Mathematical content of a [`TranscriptionError`].
pub enum TranscriptionErrorView {
    Input(BuildError),
    InvalidApiKey,
    ApiError { status: u16, body: Seq<char> },
    MaxRetriesExceeded,
    MalformedResponse(Malformation),
}

impl View for TranscriptionError {
    type V = TranscriptionErrorView;

    open spec fn view(&self) -> TranscriptionErrorView {
        match self {
            TranscriptionError::Input(e) => TranscriptionErrorView::Input(*e),
            TranscriptionError::InvalidApiKey => TranscriptionErrorView::InvalidApiKey,
            TranscriptionError::ApiError { status, body } => TranscriptionErrorView::ApiError {
                status: *status,
                body: body@,
            },
            TranscriptionError::MaxRetriesExceeded => TranscriptionErrorView::MaxRetriesExceeded,
            TranscriptionError::MalformedResponse(m) => TranscriptionErrorView::MalformedResponse(
                *m,
            ),
        }
    }
}

/// What `http::StatusCode` prints for the code `code`: the number and the
/// canonical reason phrase.
pub uninterp spec fn status_display(code: int) -> Seq<char>;

/// `reqwest::StatusCode::from_u16` followed by the code's `Display`.
/// `from_u16` accepts exactly the codes from 100 to 999; for those the result
/// is the printed status, for all others there is none.
#[verifier::external_body]
fn status_text(code: u16) -> (r: Option<String>)
    ensures
        r is Some <==> 100 <= code <= 999,
        r matches Some(text) ==> text@ == status_display(code as int),
{
    match reqwest::StatusCode::from_u16(code) {
        Ok(status) => Some(status.to_string()),
        Err(_) => None,
    }
}

/// Text for an API failure, given what the status prints as.
pub open spec fn api_failure_text(printed: Option<Seq<char>>) -> Seq<char> {
    match printed {
        Some(text) => "API request failed with status: "@ + text,
        None => "API request failed with status: invalid status code"@,
    }
}

/// What the status in an API failure prints as: nothing for a number that is
/// no status code.
pub open spec fn printed_status(code: u16) -> Option<Seq<char>> {
    if 100 <= code <= 999 {
        Some(status_display(code as int))
    } else {
        None
    }
}

impl BuildError {
    /// Text shown for this error.
    pub open spec fn text(self) -> Seq<char> {
        match self {
            BuildError::NotFound => "Input file not found or not readable"@,
            BuildError::InvalidUrl => "Invalid URL provided"@,
        }
    }

    /// Text shown for this error.
    pub fn message(&self) -> (r: String)
        ensures
            r@ == self.text(),
    {
        match self {
            BuildError::NotFound => String::from_str("Input file not found or not readable"),
            BuildError::InvalidUrl => String::from_str("Invalid URL provided"),
        }
    }
}

impl Malformation {
    /// Text shown for this error.
    pub open spec fn text(self) -> Seq<char> {
        match self {
            Malformation::NotJson => "Failed to parse API response"@,
            Malformation::NoTranscript => "Failed to extract transcript"@,
        }
    }
}

impl TranscriptionErrorView {
    /// Text shown for this error.
    pub open spec fn text(self) -> Seq<char> {
        match self {
            TranscriptionErrorView::Input(e) => e.text(),
            TranscriptionErrorView::InvalidApiKey => "Invalid API key"@,
            TranscriptionErrorView::ApiError { status, body } => api_failure_text(
                printed_status(status),
            ),
            TranscriptionErrorView::MaxRetriesExceeded =>
                "Max retries reached. Unable to connect to Deepgram API."@,
            TranscriptionErrorView::MalformedResponse(m) => m.text(),
        }
    }
}

/// Text for an API failure, given what the status prints as.
pub fn api_failure_message(printed: Option<String>) -> (r: String)
    ensures
        r@ == api_failure_text(
            match printed {
                Some(text) => Some(text@),
                None => None,
            },
        ),
{
    match printed {
        Some(text) => {
            let mut out = String::from_str("API request failed with status: ");
            out.append(text.as_str());
            out
        },
        None => String::from_str("API request failed with status: invalid status code"),
    }
}

impl TranscriptionError {
    /// Text shown for this error.
    pub fn message(&self) -> (r: String)
        ensures
            r@ == self@.text(),
    {
        match self {
            TranscriptionError::Input(e) => e.message(),
            TranscriptionError::InvalidApiKey => String::from_str("Invalid API key"),
            TranscriptionError::ApiError { status, body } => api_failure_message(
                status_text(*status),
            ),
            TranscriptionError::MaxRetriesExceeded => String::from_str(
                "Max retries reached. Unable to connect to Deepgram API.",
            ),
            TranscriptionError::MalformedResponse(m) => match m {
                Malformation::NotJson => String::from_str("Failed to parse API response"),
                Malformation::NoTranscript => String::from_str("Failed to extract transcript"),
            },
        }
    }

    /// Whether the credentials were refused: the one failure after which the
    /// user is told to check the key.
    pub fn is_invalid_api_key(&self) -> (r: bool)
        ensures
            r == (self@ is InvalidApiKey),
    {
        match self {
            TranscriptionError::InvalidApiKey => true,
            _ => false,
        }
    }
}

} // verus!
