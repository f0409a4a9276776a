//! The order of a run: prepare, build, send, pause and try again, deliver.
//!
//! The orchestrator does no I/O and never waits. Its caller opens the file,
//! talks to the transport, sleeps and writes the output; after each of these
//! it tells the orchestrator what happened and is told what to do next.

use vstd::prelude::*;
use vstd::string::*;
use crate::error::{TranscriptionError, TranscriptionErrorView};
use crate::extract::{interpret_document, interpretation};
use crate::json::{json_document, parse_json, Json};
use crate::output::SUCCESS;
use crate::progress::{Phase, ProgressTracker, ProgressView};
use crate::request::{
    build, built, progress_of_build, InputDescriptor, InputView, TransportRequest,
    TransportRequestView,
};
use crate::retry::{
    AttemptEvent, AttemptEventView, Decision, DecisionView, Response,
    ResponseView, RetryExecutor, RetryView, TransportFailure, TransportFailureView,
};

verus! {

/// Message shown before the first attempt.
pub const PREPARING: &'static str = "Preparing...";

/// Message shown when the transcript could not be written.
pub const NOT_WRITTEN: &'static str = "Failed to write the transcript";

/// Shown after `Invalid API key`.
pub const KEY_HINT: &'static str = "Please check your API key and try again.";

/// Where a run stands.
#[derive(Clone, Copy, Debug, PartialEq, Eq, Structural)]
pub enum Stage {
    /// Not begun.
    Ready,
    /// An attempt is under way and its request is yet to be built.
    Building,
    /// A request is with the transport.
    Sending,
    /// The transcript is with the output writer.
    Delivering,
    /// The run is over and the transcript is written.
    Done,
    /// The run is over and nothing is written.
    Failed,
}

impl Stage {
    pub open spec fn terminal(self) -> bool {
        self == Stage::Done || self == Stage::Failed
    }

    pub fn is_terminal(self) -> (r: bool)
        ensures
            r == self.terminal(),
    {
        match self {
            Stage::Done | Stage::Failed => true,
            _ => false,
        }
    }
}

/// What the caller is to do next.
#[derive(Debug, PartialEq, Eq)]
pub enum Step {
    /// Begin attempt `attempt`: for a local file, try to open it; then call
    /// `build`.
    Prepare { attempt: u32 },
    /// Hand the request to the transport; then call `on_response` or
    /// `on_transport_failure`.
    Send(TransportRequest),
    /// Wait `seconds`, then begin attempt `next_attempt` as after `Prepare`.
    Pause { seconds: u64, next_attempt: u32, reason: String },
    /// Stop the renderer and write the transcript; then call `on_written`.
    Deliver { transcript: String },
    /// Stop the renderer and report the error. Nothing is to be written.
    Fail(TranscriptionError),
    /// The run is over; `written` says whether the transcript was written.
    Finish { written: bool },
    /// Nothing: the orchestrator was not waiting for this.
    Idle,
}

pub enum StepView {
    Prepare { attempt: nat },
    Send(TransportRequestView),
    Pause { seconds: nat, next_attempt: nat, reason: Seq<char> },
    Deliver { transcript: Seq<char> },
    Fail(TranscriptionErrorView),
    Finish { written: bool },
    Idle,
}

impl View for Step {
    type V = StepView;

    open spec fn view(&self) -> StepView {
        match self {
            Step::Prepare { attempt } => StepView::Prepare { attempt: *attempt as nat },
            Step::Send(request) => StepView::Send(request@),
            Step::Pause { seconds, next_attempt, reason } => StepView::Pause {
                seconds: *seconds as nat,
                next_attempt: *next_attempt as nat,
                reason: reason@,
            },
            Step::Deliver { transcript } => StepView::Deliver { transcript: transcript@ },
            Step::Fail(e) => StepView::Fail(e@),
            Step::Finish { written } => StepView::Finish { written: *written },
            Step::Idle => StepView::Idle,
        }
    }
}

/// What the caller can tell the orchestrator.
pub enum EventView {
    /// `begin`.
    Begin,
    /// `build`, with the size of the file if it could be opened.
    Opened(Option<u64>),
    /// `on_transport_failure`.
    TransportFailed(TransportFailureView),
    /// `on_response_with`, with the response and the document in its body.
    Responded(ResponseView, Option<Json>),
    /// `on_written`.
    Written(bool),
}

/// Mathematical content of an [`Orchestrator`].
pub struct OrchestratorView {
    pub input: InputView,
    pub api_key: Seq<char>,
    pub executor: RetryView,
    pub stage: Stage,
}

/// The step that ends a run in failure.
pub open spec fn failure(error: TranscriptionErrorView) -> StepView {
    StepView::Fail(error)
}

/// The progress of a run that ended in failure.
pub open spec fn failed(p: ProgressView, error: TranscriptionErrorView) -> ProgressView {
    p.with_phase(Phase::Failed, error.text())
}

impl OrchestratorView {
    /// The stage and the executor agree on how far the run has come.
    pub open spec fn wf(self) -> bool {
        &&& self.executor.wf()
        &&& self.executor.upload == (self.input is LocalFile)
        &&& match self.stage {
            Stage::Ready => self.executor.attempt == 0 && !self.executor.finished,
            Stage::Building | Stage::Sending => self.executor.awaiting(),
            Stage::Delivering | Stage::Done | Stage::Failed => self.executor.finished,
        }
    }

    /// A run that has not begun.
    pub open spec fn fresh(input: InputView, api_key: Seq<char>, max_attempts: nat) -> OrchestratorView {
        OrchestratorView {
            input,
            api_key,
            executor: RetryView::fresh(max_attempts, input is LocalFile),
            stage: Stage::Ready,
        }
    }

    /// Effect of `begin`.
    pub open spec fn begun(self) -> (OrchestratorView, StepView) {
        if self.stage != Stage::Ready {
            (self, StepView::Idle)
        } else {
            match self.executor.started() {
                (executor, DecisionView::Attempt { index }) => (
                    OrchestratorView { executor, stage: Stage::Building, ..self },
                    StepView::Prepare { attempt: index },
                ),
                (executor, DecisionView::Return(Err(e))) => (
                    OrchestratorView { executor, stage: Stage::Failed, ..self },
                    failure(e),
                ),
                (executor, _) => (OrchestratorView { executor, ..self }, StepView::Idle),
            }
        }
    }

    /// Effect of `begin` on the progress.
    pub open spec fn begun_progress(self, p: ProgressView) -> ProgressView {
        match self.begun().1 {
            StepView::Prepare { .. } => p.with_phase(Phase::Preparing, PREPARING@),
            StepView::Fail(e) => failed(p, e),
            _ => p,
        }
    }

    /// Effect of `build`: a request that can be built is to be sent; an
    /// input from which none can be built ends the run.
    pub open spec fn built(self, opened: Option<u64>) -> (OrchestratorView, StepView) {
        if self.stage != Stage::Building {
            (self, StepView::Idle)
        } else {
            match built(self.input, opened, self.api_key) {
                Ok(request) => (
                    OrchestratorView { stage: Stage::Sending, ..self },
                    StepView::Send(request),
                ),
                Err(e) => (
                    OrchestratorView {
                        executor: self.executor.decided(AttemptEventView::BuildFailed(e)).0,
                        stage: Stage::Failed,
                        ..self
                    },
                    failure(TranscriptionErrorView::Input(e)),
                ),
            }
        }
    }

    /// Effect of `build` on the progress.
    pub open spec fn built_progress(self, opened: Option<u64>, p: ProgressView) -> ProgressView {
        match self.built(opened).1 {
            StepView::Send(_) => progress_of_build(self.input, opened, p),
            StepView::Fail(e) => failed(p, e),
            _ => p,
        }
    }

    /// Effect of `on_transport_failure`: another attempt after a pause, while
    /// attempts are left; the end of the run when none is.
    pub open spec fn failed_in_transport(self, failure: TransportFailureView) -> (
        OrchestratorView,
        StepView,
    ) {
        if self.stage != Stage::Sending {
            (self, StepView::Idle)
        } else {
            match self.executor.decided(AttemptEventView::TransportFailed(failure)) {
                (executor, DecisionView::Retry { delay_seconds, next_attempt, reason }) => (
                    OrchestratorView { executor, stage: Stage::Building, ..self },
                    StepView::Pause { seconds: delay_seconds, next_attempt, reason },
                ),
                (executor, DecisionView::Return(Err(e))) => (
                    OrchestratorView { executor, stage: Stage::Failed, ..self },
                    self::failure(e),
                ),
                (executor, _) => (OrchestratorView { executor, ..self }, StepView::Idle),
            }
        }
    }

    /// Effect of `on_transport_failure` on the progress.
    pub open spec fn failed_in_transport_progress(
        self,
        failure: TransportFailureView,
        p: ProgressView,
    ) -> ProgressView {
        if self.stage != Stage::Sending {
            p
        } else {
            let q = self.executor.progress_after(AttemptEventView::TransportFailed(failure), p);
            match self.failed_in_transport(failure).1 {
                StepView::Fail(e) => failed(q, e),
                _ => q,
            }
        }
    }

    /// Effect of `on_response_with`: what the executor lets through is
    /// interpreted, and only a transcript is delivered.
    pub open spec fn answered(self, response: ResponseView, document: Option<Json>) -> (
        OrchestratorView,
        StepView,
    ) {
        if self.stage != Stage::Sending {
            (self, StepView::Idle)
        } else {
            match self.executor.decided(AttemptEventView::Responded(response)) {
                (executor, DecisionView::Return(Ok(passed))) => match interpretation(
                    passed,
                    document,
                ) {
                    Ok(transcript) => (
                        OrchestratorView { executor, stage: Stage::Delivering, ..self },
                        StepView::Deliver { transcript },
                    ),
                    Err(e) => (
                        OrchestratorView { executor, stage: Stage::Failed, ..self },
                        failure(e),
                    ),
                },
                (executor, DecisionView::Return(Err(e))) => (
                    OrchestratorView { executor, stage: Stage::Failed, ..self },
                    failure(e),
                ),
                (executor, _) => (OrchestratorView { executor, ..self }, StepView::Idle),
            }
        }
    }

    /// Effect of `on_response_with` on the progress.
    pub open spec fn answered_progress(
        self,
        response: ResponseView,
        document: Option<Json>,
        p: ProgressView,
    ) -> ProgressView {
        match self.answered(response, document).1 {
            StepView::Fail(e) => failed(p, e),
            _ => p,
        }
    }

    /// Effect of `on_written`.
    pub open spec fn written(self, ok: bool) -> (OrchestratorView, StepView) {
        if self.stage != Stage::Delivering {
            (self, StepView::Idle)
        } else if ok {
            (OrchestratorView { stage: Stage::Done, ..self }, StepView::Finish { written: true })
        } else {
            (
                OrchestratorView { stage: Stage::Failed, ..self },
                StepView::Finish { written: false },
            )
        }
    }

    /// Effect of `on_written` on the progress.
    pub open spec fn written_progress(self, ok: bool, p: ProgressView) -> ProgressView {
        if self.stage != Stage::Delivering {
            p
        } else if ok {
            p.with_phase(Phase::Done, SUCCESS@)
        } else {
            p.with_phase(Phase::Failed, NOT_WRITTEN@)
        }
    }

    /// The run after `event`, and the step that answers it.
    pub open spec fn next(self, event: EventView) -> (OrchestratorView, StepView) {
        match event {
            EventView::Begin => self.begun(),
            EventView::Opened(opened) => self.built(opened),
            EventView::TransportFailed(failure) => self.failed_in_transport(failure),
            EventView::Responded(response, document) => self.answered(response, document),
            EventView::Written(ok) => self.written(ok),
        }
    }

    /// The progress after `event`.
    pub open spec fn next_progress(self, event: EventView, p: ProgressView) -> ProgressView {
        match event {
            EventView::Begin => self.begun_progress(p),
            EventView::Opened(opened) => self.built_progress(opened, p),
            EventView::TransportFailed(failure) => self.failed_in_transport_progress(failure, p),
            EventView::Responded(response, document) => self.answered_progress(
                response,
                document,
                p,
            ),
            EventView::Written(ok) => self.written_progress(ok, p),
        }
    }
}

/// Sequences one run.
#[derive(Debug)]
pub struct Orchestrator {
    input: InputDescriptor,
    api_key: String,
    executor: RetryExecutor,
    stage: Stage,
}

impl View for Orchestrator {
    type V = OrchestratorView;

    closed spec fn view(&self) -> OrchestratorView {
        OrchestratorView {
            input: self.input@,
            api_key: self.api_key@,
            executor: self.executor@,
            stage: self.stage,
        }
    }
}

impl Orchestrator {
    /// A run on `input` with the key `api_key` that allows `max_attempts`
    /// attempts.
    pub fn new(input: InputDescriptor, api_key: String, max_attempts: u32) -> (r: Orchestrator)
        ensures
            r@ == OrchestratorView::fresh(input@, api_key@, max_attempts as nat),
            r@.wf(),
    {
        let upload = input.is_upload();
        Orchestrator {
            input,
            api_key,
            executor: RetryExecutor::new(max_attempts, upload),
            stage: Stage::Ready,
        }
    }

    /// Ends the run in failure: sets the terminal phase and its message.
    fn fail(error: TranscriptionError, progress: &mut ProgressTracker) -> (step: Step)
        ensures
            step@ == failure(error@),
            final(progress)@ == failed(old(progress)@, error@),
    {
        let message = error.message();
        progress.set_phase(Phase::Failed, message.as_str());
        Step::Fail(error)
    }

    /// Begins the run.
    pub fn begin(&mut self, progress: &mut ProgressTracker) -> (step: Step)
        ensures
            (final(self)@, step@) == old(self)@.begun(),
            final(progress)@ == old(self)@.begun_progress(old(progress)@),
            old(self)@.wf() ==> final(self)@.wf(),
    {
        if !matches!(self.stage, Stage::Ready) {
            return Step::Idle;
        }
        match self.executor.start() {
            Decision::Attempt { index } => {
                self.stage = Stage::Building;
                progress.set_phase(Phase::Preparing, PREPARING);
                Step::Prepare { attempt: index }
            },
            Decision::Return(Err(e)) => {
                self.stage = Stage::Failed;
                Self::fail(e, progress)
            },
            _ => Step::Idle,
        }
    }

    /// Builds the request for the attempt under way. For a local file,
    /// `opened` is its size if it could be opened and `None` if it could
    /// not; for a remote reference it is not looked at.
    pub fn build(&mut self, opened: Option<u64>, progress: &mut ProgressTracker) -> (step: Step)
        ensures
            (final(self)@, step@) == old(self)@.built(opened),
            final(progress)@ == old(self)@.built_progress(opened, old(progress)@),
            old(self)@.wf() ==> final(self)@.wf(),
    {
        if !matches!(self.stage, Stage::Building) {
            return Step::Idle;
        }
        match build(&self.input, opened, self.api_key.as_str(), progress) {
            Ok(request) => {
                self.stage = Stage::Sending;
                Step::Send(request)
            },
            Err(e) => {
                let _ = self.executor.on_event(AttemptEvent::BuildFailed(e), progress);
                self.stage = Stage::Failed;
                Self::fail(TranscriptionError::Input(e), progress)
            },
        }
    }

    /// Takes in that the transport failed to deliver the request.
    pub fn on_transport_failure(
        &mut self,
        failure: TransportFailure,
        progress: &mut ProgressTracker,
    ) -> (step: Step)
        ensures
            (final(self)@, step@) == old(self)@.failed_in_transport(failure@),
            final(progress)@ == old(self)@.failed_in_transport_progress(failure@, old(progress)@),
            old(self)@.wf() ==> final(self)@.wf(),
    {
        if !matches!(self.stage, Stage::Sending) {
            return Step::Idle;
        }
        match self.executor.on_event(AttemptEvent::TransportFailed(failure), progress) {
            Decision::Retry { delay_seconds, next_attempt, reason } => {
                self.stage = Stage::Building;
                Step::Pause { seconds: delay_seconds, next_attempt, reason }
            },
            Decision::Return(Err(e)) => {
                self.stage = Stage::Failed;
                Self::fail(e, progress)
            },
            _ => Step::Idle,
        }
    }

    /// Takes in the response to the request, with its body already read as
    /// JSON: `document` is what the body holds, `None` if it is no JSON.
    pub fn on_response_with(
        &mut self,
        response: Response,
        document: Option<Json>,
        progress: &mut ProgressTracker,
    ) -> (step: Step)
        ensures
            (final(self)@, step@) == old(self)@.answered(response@, document),
            final(progress)@ == old(self)@.answered_progress(response@, document, old(progress)@),
            old(self)@.wf() ==> final(self)@.wf(),
    {
        if !matches!(self.stage, Stage::Sending) {
            return Step::Idle;
        }
        match self.executor.on_event(AttemptEvent::Responded(response), progress) {
            Decision::Return(Ok(passed)) => match interpret_document(passed, document) {
                Ok(transcript) => {
                    self.stage = Stage::Delivering;
                    Step::Deliver { transcript }
                },
                Err(e) => {
                    self.stage = Stage::Failed;
                    Self::fail(e, progress)
                },
            },
            Decision::Return(Err(e)) => {
                self.stage = Stage::Failed;
                Self::fail(e, progress)
            },
            _ => Step::Idle,
        }
    }

    /// Takes in the response to the request.
    pub fn on_response(&mut self, response: Response, progress: &mut ProgressTracker) -> (step: Step)
        ensures
            (final(self)@, step@) == old(self)@.answered(
                response@,
                json_document(response.body@),
            ),
            final(progress)@ == old(self)@.answered_progress(
                response@,
                json_document(response.body@),
                old(progress)@,
            ),
            old(self)@.wf() ==> final(self)@.wf(),
    {
        let document = parse_json(response.body.as_str());
        self.on_response_with(response, document, progress)
    }

    /// Takes in whether the transcript was written.
    pub fn on_written(&mut self, ok: bool, progress: &mut ProgressTracker) -> (step: Step)
        ensures
            (final(self)@, step@) == old(self)@.written(ok),
            final(progress)@ == old(self)@.written_progress(ok, old(progress)@),
            old(self)@.wf() ==> final(self)@.wf(),
    {
        if !matches!(self.stage, Stage::Delivering) {
            return Step::Idle;
        }
        if ok {
            self.stage = Stage::Done;
            progress.set_phase(Phase::Done, SUCCESS);
        } else {
            self.stage = Stage::Failed;
            progress.set_phase(Phase::Failed, NOT_WRITTEN);
        }
        Step::Finish { written: ok }
    }

    pub fn stage(&self) -> (r: Stage)
        ensures
            r == self@.stage,
    {
        self.stage
    }

    pub fn input(&self) -> (r: &InputDescriptor)
        ensures
            r@ == self@.input,
    {
        &self.input
    }

    /// Requests that reached the transport so far.
    pub fn requests_sent(&self) -> (r: u32)
        ensures
            r == self@.executor.requests,
    {
        self.executor.requests_sent()
    }
}

} // verus!
