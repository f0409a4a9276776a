//! Decision logic of a transcription client: progress accounting, request
//! building, retry policy and the reading of responses.
//!
//! Nothing here performs I/O. A program around this library opens files,
//! talks to the network, sleeps and draws; it reports what happened and is
//! told what to do next.

pub mod credential;
pub mod error;
pub mod extract;
pub mod json;
pub mod orchestrator;
pub mod orchestrator_laws;
pub mod output;
pub mod progress;
pub mod request;
pub mod retry;
pub mod retry_laws;
