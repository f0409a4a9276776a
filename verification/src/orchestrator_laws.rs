//! What holds of every run, whatever the caller reports.

use vstd::prelude::*;
use crate::error::{BuildError, TranscriptionErrorView};
use crate::orchestrator::{EventView, OrchestratorView, Stage, StepView};
use crate::progress::{Phase, ProgressView};
use crate::request::{built, url_serialization, InputView, TransportRequestView};

verus! {

/// The phase that belongs to the stage of a run: `Preparing` until the first
/// request is built, `Waiting` between a failed attempt and the next,
/// `Uploading` or `Transcribing` while a request is out, and the terminal
/// phase of the same name once the run is over.
pub open spec fn phase_of(s: OrchestratorView) -> Phase {
    match s.stage {
        Stage::Ready => Phase::Preparing,
        Stage::Building => if s.executor.attempt <= 1 {
            Phase::Preparing
        } else {
            Phase::Waiting
        },
        Stage::Sending | Stage::Delivering => if s.input is LocalFile {
            Phase::Uploading
        } else {
            Phase::Transcribing
        },
        Stage::Done => Phase::Done,
        Stage::Failed => Phase::Failed,
    }
}

/// The step starts over after a failed attempt: it is the pause before the
/// next attempt, or the build of an attempt that is not the first.
pub open spec fn starts_over(s: OrchestratorView, step: StepView) -> bool {
    step is Pause || (s.stage == Stage::Building && s.executor.attempt > 1)
}

/// Stage and executor stay in agreement, whatever is reported.
pub proof fn lemma_next_preserves_wf(s: OrchestratorView, event: EventView)
    requires
        s.wf(),
    ensures
        s.next(event).0.wf(),
        s.next(event).0.input == s.input,
        s.next(event).0.api_key == s.api_key,
        s.next(event).0.executor.max_attempts == s.executor.max_attempts,
{
}

/// A run that is over stays over: every report is answered with `Idle`, and
/// neither the run nor the progress changes.
pub proof fn lemma_terminal_is_final(s: OrchestratorView, event: EventView, p: ProgressView)
    requires
        s.stage.terminal(),
    ensures
        s.next(event) == (s, StepView::Idle),
        s.next_progress(event, p) == p,
{
}

/// A report that the run was not waiting for changes nothing.
pub proof fn lemma_idle_changes_nothing(s: OrchestratorView, event: EventView, p: ProgressView)
    requires
        s.wf(),
        s.next(event).1 is Idle,
    ensures
        s.next(event).0 == s,
        s.next_progress(event, p) == p,
{
}

/// The phase follows the stage: if it did before a report, it does after.
/// So a run reaches a terminal phase exactly when it ends, and, by
/// `lemma_terminal_is_final`, reaches no second one.
pub proof fn lemma_phase_follows_stage(s: OrchestratorView, event: EventView, p: ProgressView)
    requires
        s.wf(),
        p.phase == phase_of(s),
    ensures
        s.next_progress(event, p).phase == phase_of(s.next(event).0),
        s.next_progress(event, p).phase.terminal() <==> s.next(event).0.stage.terminal(),
        s.next(event).1 is Fail ==> s.next(event).0.stage == Stage::Failed,
        s.next(event).1 matches StepView::Finish { written } ==> s.next(event).0.stage == if written {
            Stage::Done
        } else {
            Stage::Failed
        },
        s.next(event).0.stage.terminal() ==> s.next(event).1 is Fail || s.next(event).1 is Finish
            || s.stage.terminal(),
{
}

/// Phases only move forward, except where the run starts over after a failed
/// attempt.
pub proof fn lemma_phases_advance(s: OrchestratorView, event: EventView, p: ProgressView)
    requires
        s.wf(),
        p.phase == phase_of(s),
        !starts_over(s, s.next(event).1),
    ensures
        p.phase.rank() <= s.next_progress(event, p).phase.rank(),
{
}

/// Only `build` and a transport failure touch the meter or the total: the
/// first sets the total of an upload, the second returns the meter of an
/// upload to 0 when another attempt follows.
pub proof fn lemma_meter_is_left_alone(s: OrchestratorView, event: EventView, p: ProgressView)
    requires
        s.wf(),
    ensures
        !(event is Opened) ==> s.next_progress(event, p).total == p.total,
        !(event is Opened) && !(s.next(event).1 is Pause) ==> s.next_progress(event, p).uploaded
            == p.uploaded,
        s.next(event).1 is Pause && s.input is LocalFile ==> s.next_progress(event, p).uploaded
            == 0,
        event matches EventView::Opened(opened) && s.next(event).1 is Send ==> s.next_progress(
            event,
            p,
        ).uploaded <= p.uploaded,
{
}

/// Requests are counted by the reports of their end, one each, and a run
/// never counts more than the attempts it allows. A request is handed out
/// only for a build, and only while an attempt within the bound is under
/// way.
pub proof fn lemma_requests_are_bounded(s: OrchestratorView, event: EventView)
    requires
        s.wf(),
    ensures
        s.next(event).0.executor.requests <= s.executor.max_attempts,
        s.next(event).0.executor.requests == s.executor.requests + if s.stage == Stage::Sending && (
        event is TransportFailed || event is Responded) {
            1nat
        } else {
            0nat
        },
        s.next(event).1 is Send ==> event is Opened && s.stage == Stage::Building && 1
            <= s.executor.attempt <= s.executor.max_attempts && s.executor.requests + 1
            == s.executor.attempt,
{
}

/// An input from which no request can be built ends the run at the build,
/// with the input error and without a request: the count of requests stays
/// where it was, which for the first attempt is 0.
pub proof fn lemma_unbuildable_input_fails_fast(
    s: OrchestratorView,
    opened: Option<u64>,
    p: ProgressView,
    error: BuildError,
)
    requires
        s.wf(),
        s.stage == Stage::Building,
        built(s.input, opened, s.api_key) == Err::<TransportRequestView, BuildError>(error),
    ensures
        s.built(opened).1 == StepView::Fail(TranscriptionErrorView::Input(error)),
        s.built(opened).0.stage == Stage::Failed,
        s.built(opened).0.executor.requests == s.executor.requests,
        s.executor.attempt == 1 ==> s.built(opened).0.executor.requests == 0,
        s.built_progress(opened, p).phase == Phase::Failed,
        s.built_progress(opened, p).uploaded == p.uploaded,
        s.built_progress(opened, p).total == p.total,
{
}

/// A remote reference that is no URL is refused at the first build: the run
/// fails with `InvalidUrl` and no request was made.
pub proof fn lemma_invalid_url_fails_fast(
    url: Seq<char>,
    api_key: Seq<char>,
    max_attempts: nat,
    opened: Option<u64>,
)
    requires
        0 < max_attempts <= u32::MAX,
    ensures
        url_serialization(url) is None ==> ({
            let begun = OrchestratorView::fresh(InputView::RemoteUrl(url), api_key, max_attempts).begun().0;
            &&& begun.built(opened).1 == StepView::Fail(
                TranscriptionErrorView::Input(BuildError::InvalidUrl),
            )
            &&& begun.built(opened).0.stage == Stage::Failed
            &&& begun.built(opened).0.executor.requests == 0
        }),
{
}

/// A local file that cannot be opened is refused at the first build: the run
/// fails with `NotFound` and no request was made.
pub proof fn lemma_missing_file_fails_fast(path: Seq<char>, api_key: Seq<char>, max_attempts: nat)
    requires
        0 < max_attempts <= u32::MAX,
    ensures
        ({
            let begun = OrchestratorView::fresh(InputView::LocalFile(path), api_key, max_attempts).begun().0;
            &&& begun.built(None).1 == StepView::Fail(
                TranscriptionErrorView::Input(BuildError::NotFound),
            )
            &&& begun.built(None).0.stage == Stage::Failed
            &&& begun.built(None).0.executor.requests == 0
        }),
{
}

} // verus!
