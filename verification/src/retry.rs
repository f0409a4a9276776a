//! The retry policy: a bounded number of attempts, a fixed pause between
//! them, and a verdict on what each attempt came to.
//!
//! The executor does no I/O. A caller makes each attempt, tells the executor
//! what happened, and does what the executor decides: pause and try again, or
//! stop with a result.

use vstd::prelude::*;
use vstd::string::*;
use crate::error::{BuildError, TranscriptionError, TranscriptionErrorView};
use crate::progress::{Phase, ProgressTracker, ProgressView};

verus! {

/// Attempts made when the caller does not say otherwise.
pub const DEFAULT_MAX_ATTEMPTS: u32 = 3;

/// Pause between a failed attempt and the next one, in seconds.
pub const BACKOFF_SECONDS: u64 = 5;

/// How the transport failed.
#[derive(Clone, Copy, Debug, PartialEq, Eq, Structural)]
pub enum FailureKind {
    Connect,
    Timeout,
    Other,
}

/// A failure below HTTP: no response arrived.
#[derive(Debug, PartialEq, Eq)]
pub struct TransportFailure {
    pub kind: FailureKind,
    /// The transport's own description of the failure.
    pub detail: String,
}

pub struct TransportFailureView {
    pub kind: FailureKind,
    pub detail: Seq<char>,
}

impl View for TransportFailure {
    type V = TransportFailureView;

    open spec fn view(&self) -> TransportFailureView {
        TransportFailureView { kind: self.kind, detail: self.detail@ }
    }
}

/// An HTTP response, read to its end.
#[derive(Debug, PartialEq, Eq)]
pub struct Response {
    pub status: u16,
    pub body: String,
}

pub struct ResponseView {
    pub status: u16,
    pub body: Seq<char>,
}

impl View for Response {
    type V = ResponseView;

    open spec fn view(&self) -> ResponseView {
        ResponseView { status: self.status, body: self.body@ }
    }
}

/// What one attempt came to, as the caller saw it.
#[derive(Debug, PartialEq, Eq)]
pub enum AttemptEvent {
    /// No request could be built, so none was sent.
    BuildFailed(BuildError),
    /// The request was sent and the transport failed.
    TransportFailed(TransportFailure),
    /// The request was sent and a response arrived.
    Responded(Response),
}

pub enum AttemptEventView {
    BuildFailed(BuildError),
    TransportFailed(TransportFailureView),
    Responded(ResponseView),
}

impl View for AttemptEvent {
    type V = AttemptEventView;

    open spec fn view(&self) -> AttemptEventView {
        match self {
            AttemptEvent::BuildFailed(e) => AttemptEventView::BuildFailed(*e),
            AttemptEvent::TransportFailed(f) => AttemptEventView::TransportFailed(f@),
            AttemptEvent::Responded(r) => AttemptEventView::Responded(r@),
        }
    }
}

/// The verdict on one attempt.
#[derive(Debug, PartialEq, Eq)]
pub enum Outcome {
    Success(Response),
    /// Worth another attempt; the text says what went wrong.
    TransientErr(String),
    /// No further attempt can help.
    FatalErr(TranscriptionError),
}

pub enum OutcomeView {
    Success(ResponseView),
    TransientErr(Seq<char>),
    FatalErr(TranscriptionErrorView),
}

impl View for Outcome {
    type V = OutcomeView;

    open spec fn view(&self) -> OutcomeView {
        match self {
            Outcome::Success(r) => OutcomeView::Success(r@),
            Outcome::TransientErr(reason) => OutcomeView::TransientErr(reason@),
            Outcome::FatalErr(e) => OutcomeView::FatalErr(e@),
        }
    }
}

/// Status that says the credentials were refused.
pub open spec fn is_unauthorized(status: u16) -> bool {
    status == 401
}

/// Status in the client-error or server-error class.
pub open spec fn is_error_status(status: u16) -> bool {
    400 <= status < 600
}

/// Status in the success class.
pub open spec fn is_success_status(status: u16) -> bool {
    200 <= status < 300
}

/// Text that tells the user how the transport failed. An upload reports every
/// failure alike; a request by reference tells connection failures and
/// timeouts apart.
pub open spec fn transient_reason(failure: TransportFailureView, upload: bool) -> Seq<char> {
    if upload {
        "Error sending file to Deepgram API: "@ + failure.detail
    } else {
        match failure.kind {
            FailureKind::Connect =>
                "Failed to connect to Deepgram API. Please check your internet connection."@,
            FailureKind::Timeout => "Request to Deepgram API timed out. Please try again later."@,
            FailureKind::Other => "Error sending request to Deepgram API: "@ + failure.detail,
        }
    }
}

/// The verdict on one attempt: a build failure and an error status are
/// fatal, a transport failure is transient, any other response is the
/// result.
pub open spec fn verdict(event: AttemptEventView, upload: bool) -> OutcomeView {
    match event {
        AttemptEventView::BuildFailed(e) => OutcomeView::FatalErr(TranscriptionErrorView::Input(e)),
        AttemptEventView::TransportFailed(f) => OutcomeView::TransientErr(
            transient_reason(f, upload),
        ),
        AttemptEventView::Responded(r) => if is_unauthorized(r.status) {
            OutcomeView::FatalErr(TranscriptionErrorView::InvalidApiKey)
        } else if is_error_status(r.status) {
            OutcomeView::FatalErr(
                TranscriptionErrorView::ApiError { status: r.status, body: r.body },
            )
        } else {
            OutcomeView::Success(r)
        },
    }
}

pub fn status_is_unauthorized(status: u16) -> (r: bool)
    ensures
        r == is_unauthorized(status),
{
    status == 401
}

pub fn status_is_error(status: u16) -> (r: bool)
    ensures
        r == is_error_status(status),
{
    400 <= status && status < 600
}

pub fn status_is_success(status: u16) -> (r: bool)
    ensures
        r == is_success_status(status),
{
    200 <= status && status < 300
}

/// Text that tells the user how the transport failed.
pub fn describe_failure(failure: &TransportFailure, upload: bool) -> (r: String)
    ensures
        r@ == transient_reason(failure@, upload),
{
    if upload {
        let mut out = String::from_str("Error sending file to Deepgram API: ");
        out.append(failure.detail.as_str());
        out
    } else {
        match failure.kind {
            FailureKind::Connect => String::from_str(
                "Failed to connect to Deepgram API. Please check your internet connection.",
            ),
            FailureKind::Timeout => String::from_str(
                "Request to Deepgram API timed out. Please try again later.",
            ),
            FailureKind::Other => {
                let mut out = String::from_str("Error sending request to Deepgram API: ");
                out.append(failure.detail.as_str());
                out
            },
        }
    }
}

/// Classifies what one attempt came to.
pub fn classify(event: AttemptEvent, upload: bool) -> (r: Outcome)
    ensures
        r@ == verdict(event@, upload),
{
    match event {
        AttemptEvent::BuildFailed(e) => Outcome::FatalErr(TranscriptionError::Input(e)),
        AttemptEvent::TransportFailed(f) => Outcome::TransientErr(describe_failure(&f, upload)),
        AttemptEvent::Responded(r) => {
            if status_is_unauthorized(r.status) {
                Outcome::FatalErr(TranscriptionError::InvalidApiKey)
            } else if status_is_error(r.status) {
                Outcome::FatalErr(TranscriptionError::ApiError { status: r.status, body: r.body })
            } else {
                Outcome::Success(r)
            }
        },
    }
}

/// What the caller is to do next.
#[derive(Debug, PartialEq, Eq)]
pub enum Decision {
    /// Build the request and send it; this is attempt `index`.
    Attempt { index: u32 },
    /// Wait `delay_seconds`, then build the request again and send it as
    /// attempt `next_attempt`.
    Retry { delay_seconds: u64, next_attempt: u32, reason: String },
    /// Stop; this is the result of the run of attempts.
    Return(Result<Response, TranscriptionError>),
    /// Nothing: the executor was not waiting for this.
    Idle,
}

pub enum DecisionView {
    Attempt { index: nat },
    Retry { delay_seconds: nat, next_attempt: nat, reason: Seq<char> },
    Return(Result<ResponseView, TranscriptionErrorView>),
    Idle,
}

impl View for Decision {
    type V = DecisionView;

    open spec fn view(&self) -> DecisionView {
        match self {
            Decision::Attempt { index } => DecisionView::Attempt { index: *index as nat },
            Decision::Retry { delay_seconds, next_attempt, reason } => DecisionView::Retry {
                delay_seconds: *delay_seconds as nat,
                next_attempt: *next_attempt as nat,
                reason: reason@,
            },
            Decision::Return(Ok(r)) => DecisionView::Return(Ok(r@)),
            Decision::Return(Err(e)) => DecisionView::Return(Err(e@)),
            Decision::Idle => DecisionView::Idle,
        }
    }
}

/// Mathematical content of a [`RetryExecutor`].
pub struct RetryView {
    /// Attempts allowed.
    pub max_attempts: nat,
    /// Index of the attempt under way, counted from 1; 0 before the first.
    pub attempt: nat,
    /// Requests that reached the transport.
    pub requests: nat,
    /// Whether a result was returned.
    pub finished: bool,
    /// Whether the request body is a file, whose meter restarts with each
    /// attempt.
    pub upload: bool,
}

impl RetryView {
    pub open spec fn wf(self) -> bool {
        &&& self.max_attempts <= u32::MAX
        &&& self.attempt <= self.max_attempts
        &&& self.requests <= self.attempt
        &&& self.attempt >= 1 && !self.finished ==> self.requests + 1 == self.attempt
        &&& self.attempt == 0 && self.finished ==> self.max_attempts == 0
    }

    /// An executor that has not begun.
    pub open spec fn fresh(max_attempts: nat, upload: bool) -> RetryView {
        RetryView { max_attempts, attempt: 0, requests: 0, finished: false, upload }
    }

    /// Waiting to hear what the attempt under way came to.
    pub open spec fn awaiting(self) -> bool {
        self.attempt >= 1 && !self.finished
    }

    /// Effect of `start`: the first attempt begins, unless none is allowed.
    pub open spec fn started(self) -> (RetryView, DecisionView) {
        if self.attempt != 0 || self.finished {
            (self, DecisionView::Idle)
        } else if self.max_attempts == 0 {
            (
                RetryView { finished: true, ..self },
                DecisionView::Return(Err(TranscriptionErrorView::MaxRetriesExceeded)),
            )
        } else {
            (RetryView { attempt: 1, ..self }, DecisionView::Attempt { index: 1 })
        }
    }

    /// Effect of `on_event` on the executor, and what it decides.
    pub open spec fn decided(self, event: AttemptEventView) -> (RetryView, DecisionView) {
        if !self.awaiting() {
            (self, DecisionView::Idle)
        } else {
            let requests = if event is BuildFailed {
                self.requests
            } else {
                self.requests + 1
            };
            match verdict(event, self.upload) {
                OutcomeView::Success(r) => (
                    RetryView { requests, finished: true, ..self },
                    DecisionView::Return(Ok(r)),
                ),
                OutcomeView::FatalErr(e) => (
                    RetryView { requests, finished: true, ..self },
                    DecisionView::Return(Err(e)),
                ),
                OutcomeView::TransientErr(reason) => if self.attempt < self.max_attempts {
                    (
                        RetryView { requests, attempt: self.attempt + 1, ..self },
                        DecisionView::Retry {
                            delay_seconds: BACKOFF_SECONDS as nat,
                            next_attempt: self.attempt + 1,
                            reason,
                        },
                    )
                } else {
                    (
                        RetryView { requests, finished: true, ..self },
                        DecisionView::Return(Err(TranscriptionErrorView::MaxRetriesExceeded)),
                    )
                },
            }
        }
    }

    /// Effect of `on_event` on the progress: when another attempt follows,
    /// the phase becomes `Waiting` with the reason as message, and the meter
    /// of an upload returns to 0. Nothing else touches the progress.
    pub open spec fn progress_after(self, event: AttemptEventView, p: ProgressView) -> ProgressView {
        match self.decided(event).1 {
            DecisionView::Retry { reason, .. } => {
                let q = if self.upload {
                    p.rewound()
                } else {
                    p
                };
                q.with_phase(Phase::Waiting, reason)
            },
            _ => p,
        }
    }
}

/// Accounts for the attempts of one run and decides after each what follows.
#[derive(Debug)]
pub struct RetryExecutor {
    max_attempts: u32,
    attempt: u32,
    requests: u32,
    finished: bool,
    upload: bool,
}

impl View for RetryExecutor {
    type V = RetryView;

    closed spec fn view(&self) -> RetryView {
        RetryView {
            max_attempts: self.max_attempts as nat,
            attempt: self.attempt as nat,
            requests: self.requests as nat,
            finished: self.finished,
            upload: self.upload,
        }
    }
}

impl RetryExecutor {
    #[verifier::type_invariant]
    spec fn inv(&self) -> bool {
        &&& self.attempt <= self.max_attempts
        &&& self.requests <= self.attempt
        &&& self.attempt >= 1 && !self.finished ==> self.requests + 1 == self.attempt
        &&& self.attempt == 0 && self.finished ==> self.max_attempts == 0
    }

    /// An executor that allows `max_attempts` attempts. `upload` says whether
    /// the request body is a file.
    pub fn new(max_attempts: u32, upload: bool) -> (r: RetryExecutor)
        ensures
            r@ == RetryView::fresh(max_attempts as nat, upload),
            r@.wf(),
    {
        RetryExecutor { max_attempts, attempt: 0, requests: 0, finished: false, upload }
    }

    /// Begins the first attempt.
    pub fn start(&mut self) -> (d: Decision)
        ensures
            (final(self)@, d@) == old(self)@.started(),
            final(self)@.wf(),
    {
        proof {
            use_type_invariant(&*self);
        }
        if self.attempt != 0 || self.finished {
            Decision::Idle
        } else if self.max_attempts == 0 {
            self.finished = true;
            Decision::Return(Err(TranscriptionError::MaxRetriesExceeded))
        } else {
            self.attempt = 1;
            Decision::Attempt { index: 1 }
        }
    }

    /// Takes in what the attempt under way came to and decides what follows.
    pub fn on_event(&mut self, event: AttemptEvent, progress: &mut ProgressTracker) -> (d: Decision)
        ensures
            (final(self)@, d@) == old(self)@.decided(event@),
            final(progress)@ == old(self)@.progress_after(event@, old(progress)@),
            final(self)@.wf(),
    {
        proof {
            use_type_invariant(&*self);
        }
        if self.attempt == 0 || self.finished {
            return Decision::Idle;
        }
        let requests: u32 = match &event {
            AttemptEvent::BuildFailed(_) => self.requests,
            _ => self.requests + 1,
        };
        match classify(event, self.upload) {
            Outcome::Success(r) => {
                *self = RetryExecutor { requests, finished: true, ..*self };
                Decision::Return(Ok(r))
            },
            Outcome::FatalErr(e) => {
                *self = RetryExecutor { requests, finished: true, ..*self };
                Decision::Return(Err(e))
            },
            Outcome::TransientErr(reason) => {
                if self.attempt < self.max_attempts {
                    let next_attempt: u32 = self.attempt + 1;
                    *self = RetryExecutor { requests, attempt: next_attempt, ..*self };
                    if self.upload {
                        progress.reset();
                    }
                    progress.set_phase(Phase::Waiting, reason.as_str());
                    Decision::Retry { delay_seconds: BACKOFF_SECONDS, next_attempt, reason }
                } else {
                    *self = RetryExecutor { requests, finished: true, ..*self };
                    Decision::Return(Err(TranscriptionError::MaxRetriesExceeded))
                }
            },
        }
    }

    pub fn max_attempts(&self) -> (r: u32)
        ensures
            r == self@.max_attempts,
    {
        self.max_attempts
    }

    /// Index of the attempt under way; 0 before the first.
    pub fn attempt(&self) -> (r: u32)
        ensures
            r == self@.attempt,
            self@.wf(),
    {
        proof {
            use_type_invariant(self);
        }
        self.attempt
    }

    /// Requests that reached the transport so far.
    pub fn requests_sent(&self) -> (r: u32)
        ensures
            r == self@.requests,
            self@.wf(),
    {
        proof {
            use_type_invariant(self);
        }
        self.requests
    }

    pub fn is_finished(&self) -> (r: bool)
        ensures
            r == self@.finished,
    {
        self.finished
    }
}

} // verus!
