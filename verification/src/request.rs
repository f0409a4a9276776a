//! From an input to a request that a transport can send.
//!
//! A request is built anew for every attempt: the body of an upload is a
//! single pass over the file, so a spent one cannot be sent again.

use vstd::prelude::*;
use vstd::string::*;
use crate::error::BuildError;
use crate::progress::{Phase, ProgressTracker, ProgressView};

verus! {

/// What is to be transcribed.
#[derive(Debug, PartialEq, Eq)]
pub enum InputDescriptor {
    /// Audio in a file on this machine; the text is its path.
    LocalFile(String),
    /// Audio that the service fetches itself; the text is its URL.
    RemoteUrl(String),
}

pub enum InputView {
    LocalFile(Seq<char>),
    RemoteUrl(Seq<char>),
}

impl View for InputDescriptor {
    type V = InputView;

    open spec fn view(&self) -> InputView {
        match self {
            InputDescriptor::LocalFile(path) => InputView::LocalFile(path@),
            InputDescriptor::RemoteUrl(url) => InputView::RemoteUrl(url@),
        }
    }
}

impl InputDescriptor {
    /// Reads the two command-line values: the input text, and whether it
    /// names a file.
    pub fn from_args(input: String, is_file: bool) -> (r: InputDescriptor)
        ensures
            r@ == if is_file {
                InputView::LocalFile(input@)
            } else {
                InputView::RemoteUrl(input@)
            },
    {
        if is_file {
            InputDescriptor::LocalFile(input)
        } else {
            InputDescriptor::RemoteUrl(input)
        }
    }

    /// Whether the request body will be the file itself.
    pub fn is_upload(&self) -> (r: bool)
        ensures
            r == (self@ is LocalFile),
    {
        match self {
            InputDescriptor::LocalFile(_) => true,
            InputDescriptor::RemoteUrl(_) => false,
        }
    }

    /// The path or URL as given.
    pub fn text(&self) -> (r: &str)
        ensures
            r@ == match self@ {
                InputView::LocalFile(path) => path,
                InputView::RemoteUrl(url) => url,
            },
    {
        match self {
            InputDescriptor::LocalFile(path) => path.as_str(),
            InputDescriptor::RemoteUrl(url) => url.as_str(),
        }
    }
}

/// The body of a request.
#[derive(Debug, PartialEq, Eq)]
pub enum Body {
    /// The bytes of the input file, `length` of them, handed over chunk by
    /// chunk by whoever sends the request.
    Stream { length: u64 },
    /// A JSON text.
    Json(String),
}

pub enum BodyView {
    Stream { length: nat },
    Json(Seq<char>),
}

impl View for Body {
    type V = BodyView;

    open spec fn view(&self) -> BodyView {
        match self {
            Body::Stream { length } => BodyView::Stream { length: *length as nat },
            Body::Json(text) => BodyView::Json(text@),
        }
    }
}

/// A `POST` request, ready for a transport.
#[derive(Debug, PartialEq, Eq)]
pub struct TransportRequest {
    pub endpoint: String,
    /// Value of the `Authorization` header.
    pub authorization: String,
    /// Value of the `Content-Type` header.
    pub content_type: String,
    pub body: Body,
}

pub struct TransportRequestView {
    pub endpoint: Seq<char>,
    pub authorization: Seq<char>,
    pub content_type: Seq<char>,
    pub body: BodyView,
}

impl View for TransportRequest {
    type V = TransportRequestView;

    open spec fn view(&self) -> TransportRequestView {
        TransportRequestView {
            endpoint: self.endpoint@,
            authorization: self.authorization@,
            content_type: self.content_type@,
            body: self.body@,
        }
    }
}

/// Where every request goes: the transcription endpoint, with the model and
/// the formatting options in the query.
pub const ENDPOINT: &'static str =
    "https://api.deepgram.com/v1/listen?model=nova-2&smart_format=true&paragraphs=true&diarize=true";

/// Content type of an upload: the service is told nothing about the bytes.
pub const OCTET_STREAM: &'static str = "application/octet-stream";

/// Content type of a request by reference.
pub const JSON: &'static str = "application/json";

/// Name of the one member of the body of a request by reference.
pub const URL_MEMBER: &'static str = "url";

/// Message shown while a file is sent.
pub const UPLOADING: &'static str = "Uploading...";

/// Message shown while the service works.
pub const TRANSCRIBING: &'static str = "Transcribing...";

/// Value of the `Authorization` header for the key `key`.
pub open spec fn authorization_value(key: Seq<char>) -> Seq<char> {
    "Token "@ + key
}

/// The request that uploads a file of `length` bytes.
pub open spec fn upload_request(length: nat, key: Seq<char>) -> TransportRequestView {
    TransportRequestView {
        endpoint: ENDPOINT@,
        authorization: authorization_value(key),
        content_type: OCTET_STREAM@,
        body: BodyView::Stream { length },
    }
}

/// The request that hands the service the JSON text `envelope`.
pub open spec fn reference_request(envelope: Seq<char>, key: Seq<char>) -> TransportRequestView {
    TransportRequestView {
        endpoint: ENDPOINT@,
        authorization: authorization_value(key),
        content_type: JSON@,
        body: BodyView::Json(envelope),
    }
}

/// The serialization that the `url` crate gives the URL it parses from
/// `input`: `None` where `input` is no absolute URL.
pub uninterp spec fn url_serialization(input: Seq<char>) -> Option<Seq<char>>;

/// The compact JSON text that `serde_json` prints for an object with the
/// single member `key`, a string with the content `value`.
pub uninterp spec fn json_single_member(key: Seq<char>, value: Seq<char>) -> Seq<char>;

/// `url::Url::parse`, and for a URL that parses its serialization. The
/// contract only names the outcome.
#[verifier::external_body]
fn parse_url(input: &str) -> (r: Option<String>)
    ensures
        match r {
            Some(text) => url_serialization(input@) == Some(text@),
            None => url_serialization(input@) is None,
        },
{
    match url::Url::parse(input) {
        Ok(parsed) => Some(String::from(parsed)),
        Err(_) => None,
    }
}

/// A `serde_json::Value` that is an object with one string member, printed
/// by its `Display`, which is the compact form. The contract only names the
/// outcome.
#[verifier::external_body]
fn print_single_member(key: &str, value: &str) -> (r: String)
    ensures
        r@ == json_single_member(key@, value@),
{
    let mut members = serde_json::Map::new();
    members.insert(String::from(key), serde_json::Value::String(String::from(value)));
    serde_json::Value::Object(members).to_string()
}

/// The body of a request by reference to `input`: `None` where `input` is
/// no URL.
pub open spec fn reference_envelope(input: Seq<char>) -> Option<Seq<char>> {
    match url_serialization(input) {
        Some(text) => Some(json_single_member(URL_MEMBER@, text)),
        None => None,
    }
}

/// What `build_upload` returns.
pub open spec fn built_upload(opened: Option<u64>, key: Seq<char>) -> Result<
    TransportRequestView,
    BuildError,
> {
    match opened {
        Some(length) => Ok(upload_request(length as nat, key)),
        None => Err(BuildError::NotFound),
    }
}

/// What `build_upload` does to the progress: a file that was opened sets the
/// total and the phase; the meter is left alone.
pub open spec fn progress_of_upload(opened: Option<u64>, p: ProgressView) -> ProgressView {
    match opened {
        Some(length) => p.with_total(length as nat).with_phase(Phase::Uploading, UPLOADING@),
        None => p,
    }
}

/// What `build_reference_from` returns.
pub open spec fn built_reference(envelope: Option<Seq<char>>, key: Seq<char>) -> Result<
    TransportRequestView,
    BuildError,
> {
    match envelope {
        Some(text) => Ok(reference_request(text, key)),
        None => Err(BuildError::InvalidUrl),
    }
}

/// What `build_reference_from` does to the progress.
pub open spec fn progress_of_reference(envelope: Option<Seq<char>>, p: ProgressView) -> ProgressView {
    match envelope {
        Some(_) => p.with_phase(Phase::Transcribing, TRANSCRIBING@),
        None => p,
    }
}

/// What `build` returns.
pub open spec fn built(input: InputView, opened: Option<u64>, key: Seq<char>) -> Result<
    TransportRequestView,
    BuildError,
> {
    match input {
        InputView::LocalFile(_) => built_upload(opened, key),
        InputView::RemoteUrl(url) => built_reference(reference_envelope(url), key),
    }
}

/// What `build` does to the progress.
pub open spec fn progress_of_build(input: InputView, opened: Option<u64>, p: ProgressView) -> ProgressView {
    match input {
        InputView::LocalFile(_) => progress_of_upload(opened, p),
        InputView::RemoteUrl(url) => progress_of_reference(reference_envelope(url), p),
    }
}

/// The view of a build result.
pub open spec fn build_view(r: Result<TransportRequest, BuildError>) -> Result<
    TransportRequestView,
    BuildError,
> {
    match r {
        Ok(request) => Ok(request@),
        Err(e) => Err(e),
    }
}

/// Value of the `Authorization` header for the key `api_key`.
pub fn authorization(api_key: &str) -> (r: String)
    ensures
        r@ == authorization_value(api_key@),
{
    let mut out = String::from_str("Token ");
    out.append(api_key);
    out
}

/// Builds the request that uploads the input file. `opened` is the size of
/// the file if it could be opened, and `None` if it could not.
pub fn build_upload(opened: Option<u64>, api_key: &str, progress: &mut ProgressTracker) -> (r:
    Result<TransportRequest, BuildError>)
    ensures
        build_view(r) == built_upload(opened, api_key@),
        final(progress)@ == progress_of_upload(opened, old(progress)@),
{
    match opened {
        None => Err(BuildError::NotFound),
        Some(length) => {
            progress.set_total(length);
            progress.set_phase(Phase::Uploading, UPLOADING);
            Ok(
                TransportRequest {
                    endpoint: String::from_str(ENDPOINT),
                    authorization: authorization(api_key),
                    content_type: String::from_str(OCTET_STREAM),
                    body: Body::Stream { length },
                },
            )
        },
    }
}

/// Builds the request by reference from its body, if there is one.
/// `envelope` is the JSON text that names the URL, and `None` if the input
/// was no URL.
pub fn build_reference_from(
    envelope: Option<String>,
    api_key: &str,
    progress: &mut ProgressTracker,
) -> (r: Result<TransportRequest, BuildError>)
    ensures
        build_view(r) == built_reference(
            match envelope {
                Some(text) => Some(text@),
                None => None,
            },
            api_key@,
        ),
        final(progress)@ == progress_of_reference(
            match envelope {
                Some(text) => Some(text@),
                None => None,
            },
            old(progress)@,
        ),
{
    match envelope {
        None => Err(BuildError::InvalidUrl),
        Some(text) => {
            progress.set_phase(Phase::Transcribing, TRANSCRIBING);
            Ok(
                TransportRequest {
                    endpoint: String::from_str(ENDPOINT),
                    authorization: authorization(api_key),
                    content_type: String::from_str(JSON),
                    body: Body::Json(text),
                },
            )
        },
    }
}

/// The body of a request by reference to `url`, if `url` is one.
pub fn envelope_for(url: &str) -> (r: Option<String>)
    ensures
        match r {
            Some(text) => reference_envelope(url@) == Some(text@),
            None => reference_envelope(url@) is None,
        },
{
    match parse_url(url) {
        Some(text) => Some(print_single_member(URL_MEMBER, text.as_str())),
        None => None,
    }
}

/// Builds the request by reference to `url`. A text that is no URL is
/// refused and leaves the progress as it was.
pub fn build_reference(url: &str, api_key: &str, progress: &mut ProgressTracker) -> (r: Result<
    TransportRequest,
    BuildError,
>)
    ensures
        build_view(r) == built_reference(reference_envelope(url@), api_key@),
        final(progress)@ == progress_of_reference(reference_envelope(url@), old(progress)@),
{
    build_reference_from(envelope_for(url), api_key, progress)
}

/// Builds the request for one attempt. For a local file, `opened` is its
/// size if it could be opened and `None` if it could not; for a remote
/// reference it is not looked at.
pub fn build(
    input: &InputDescriptor,
    opened: Option<u64>,
    api_key: &str,
    progress: &mut ProgressTracker,
) -> (r: Result<TransportRequest, BuildError>)
    ensures
        build_view(r) == built(input@, opened, api_key@),
        final(progress)@ == progress_of_build(input@, opened, old(progress)@),
{
    match input {
        InputDescriptor::LocalFile(_) => build_upload(opened, api_key, progress),
        InputDescriptor::RemoteUrl(url) => build_reference(url.as_str(), api_key, progress),
    }
}

} // verus!
