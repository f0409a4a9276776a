//! From a response to the transcript.
//!
//! The transcript of a response document is the string at
//! `results.channels[0].alternatives[0].transcript`. Nothing else is looked
//! at, and nothing less is accepted.

use vstd::prelude::*;
use vstd::string::*;
use crate::error::{ExtractError, Malformation, TranscriptionError, TranscriptionErrorView};
use crate::json::{json_document, parse_json, Json};
use crate::retry::{is_success_status, status_is_success, Response, ResponseView};

verus! {

/// The member `key` of the node `node`, if both are there.
pub open spec fn child(node: Option<Json>, key: Seq<char>) -> Option<Json> {
    match node {
        Some(value) => value.field(key),
        None => None,
    }
}

/// The first element of the node `node`, if both are there.
pub open spec fn first(node: Option<Json>) -> Option<Json> {
    match node {
        Some(value) => value.element(0),
        None => None,
    }
}

/// The node at `results.channels[0].alternatives[0].transcript`.
pub open spec fn transcript_node(body: Json) -> Option<Json> {
    child(
        first(child(first(child(child(Some(body), "results"@), "channels"@)), "alternatives"@)),
        "transcript"@,
    )
}

/// The transcript in the document `body`: the node at the fixed path, if it
/// is there and is a string.
pub open spec fn transcript_of(body: Json) -> Option<Seq<char>> {
    match transcript_node(body) {
        Some(value) => value.text(),
        None => None,
    }
}

/// Takes the transcript out of a response document. A missing member, an
/// empty array or a value of the wrong type anywhere on the path makes the
/// document malformed.
pub fn extract(body: &Json) -> (r: Result<String, ExtractError>)
    ensures
        match r {
            Ok(transcript) => transcript_of(*body) == Some(transcript@),
            Err(e) => transcript_of(*body) is None && e == ExtractError::MalformedResponse,
        },
{
    let results = match body.get("results") {
        Some(node) => node,
        None => {
            return Err(ExtractError::MalformedResponse);
        },
    };
    let channels = match results.get("channels") {
        Some(node) => node,
        None => {
            return Err(ExtractError::MalformedResponse);
        },
    };
    let channel = match channels.at(0) {
        Some(node) => node,
        None => {
            return Err(ExtractError::MalformedResponse);
        },
    };
    let alternatives = match channel.get("alternatives") {
        Some(node) => node,
        None => {
            return Err(ExtractError::MalformedResponse);
        },
    };
    let alternative = match alternatives.at(0) {
        Some(node) => node,
        None => {
            return Err(ExtractError::MalformedResponse);
        },
    };
    let transcript = match alternative.get("transcript") {
        Some(node) => node,
        None => {
            return Err(ExtractError::MalformedResponse);
        },
    };
    match transcript.as_text() {
        Some(text) => Ok(String::from_str(text)),
        None => Err(ExtractError::MalformedResponse),
    }
}

/// What a response comes to, given the document that its body holds
/// (`None`: the body is no JSON). A status outside the success class is an
/// API error that carries status and body; a success without a transcript is
/// malformed.
pub open spec fn interpretation(response: ResponseView, document: Option<Json>) -> Result<
    Seq<char>,
    TranscriptionErrorView,
> {
    if !is_success_status(response.status) {
        Err(TranscriptionErrorView::ApiError { status: response.status, body: response.body })
    } else {
        match document {
            None => Err(TranscriptionErrorView::MalformedResponse(Malformation::NotJson)),
            Some(body) => match transcript_of(body) {
                Some(transcript) => Ok(transcript),
                None => Err(TranscriptionErrorView::MalformedResponse(Malformation::NoTranscript)),
            },
        }
    }
}

/// The view of an interpretation.
pub open spec fn interpretation_view(r: Result<String, TranscriptionError>) -> Result<
    Seq<char>,
    TranscriptionErrorView,
> {
    match r {
        Ok(transcript) => Ok(transcript@),
        Err(e) => Err(e@),
    }
}

/// Interprets a response whose body was already read as JSON: `document` is
/// what the body holds, `None` if it is no JSON.
pub fn interpret_document(response: Response, document: Option<Json>) -> (r: Result<
    String,
    TranscriptionError,
>)
    ensures
        interpretation_view(r) == interpretation(response@, document),
{
    if !status_is_success(response.status) {
        return Err(TranscriptionError::ApiError { status: response.status, body: response.body });
    }
    match document {
        None => Err(TranscriptionError::MalformedResponse(Malformation::NotJson)),
        Some(body) => match extract(&body) {
            Ok(transcript) => Ok(transcript),
            Err(_) => Err(TranscriptionError::MalformedResponse(Malformation::NoTranscript)),
        },
    }
}

/// Interprets a response: reads its body as JSON and takes the transcript
/// out.
pub fn interpret(response: Response) -> (r: Result<String, TranscriptionError>)
    ensures
        interpretation_view(r) == interpretation(response@, json_document(response.body@)),
{
    let document = if status_is_success(response.status) {
        parse_json(response.body.as_str())
    } else {
        None
    };
    interpret_document(response, document)
}

} // verus!
