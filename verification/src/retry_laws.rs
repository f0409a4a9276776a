//! What holds of every run of attempts.
//!
//! A run is described by a script: for each attempt in turn, the bytes the
//! transport consumed during it and what it came to. `execute` plays a script
//! against the executor's own transition functions; the laws below are about
//! `execute`.

use vstd::prelude::*;
use crate::error::{BuildError, TranscriptionErrorView};
use crate::progress::{Phase, ProgressView};
use crate::retry::{
    is_error_status, is_unauthorized, verdict, AttemptEventView, DecisionView, OutcomeView,
    ResponseView, RetryView,
};

verus! {

/// One attempt of a script.
pub struct ScriptedAttempt {
    /// Bytes handed to the transport while the attempt was under way.
    pub uploaded: nat,
    /// What the attempt came to.
    pub event: AttemptEventView,
}

/// Where a script leaves the executor and the progress, and the result it
/// produced, if it got that far.
pub struct Trace {
    pub state: RetryView,
    pub progress: ProgressView,
    pub result: Option<Result<ResponseView, TranscriptionErrorView>>,
}

/// Plays `script` against an executor that is waiting for an attempt's end.
pub open spec fn replay(state: RetryView, progress: ProgressView, script: Seq<ScriptedAttempt>) -> Trace
    decreases script.len(),
{
    if script.len() == 0 || !state.awaiting() {
        Trace { state, progress, result: None }
    } else {
        let during = progress.advanced(script[0].uploaded);
        let (next, decision) = state.decided(script[0].event);
        let after = state.progress_after(script[0].event, during);
        match decision {
            DecisionView::Return(r) => Trace { state: next, progress: after, result: Some(r) },
            _ => replay(next, after, script.drop_first()),
        }
    }
}

/// Plays `script` against a fresh executor.
pub open spec fn execute(
    max_attempts: nat,
    upload: bool,
    progress: ProgressView,
    script: Seq<ScriptedAttempt>,
) -> Trace {
    let (begun, decision) = RetryView::fresh(max_attempts, upload).started();
    match decision {
        DecisionView::Return(r) => Trace { state: begun, progress, result: Some(r) },
        _ => replay(begun, progress, script),
    }
}

/// The first `k` attempts of `script` all failed in transport.
pub open spec fn transient_prefix(script: Seq<ScriptedAttempt>, k: int) -> bool {
    &&& 0 <= k <= script.len()
    &&& forall|i: int| 0 <= i < k ==> (#[trigger] script[i]).event is TransportFailed
}

/// The result that a decisive event stands for.
pub open spec fn settled(event: AttemptEventView, upload: bool) -> Result<
    ResponseView,
    TranscriptionErrorView,
> {
    match verdict(event, upload) {
        OutcomeView::Success(r) => Ok(r),
        OutcomeView::FatalErr(e) => Err(e),
        OutcomeView::TransientErr(_) => Err(TranscriptionErrorView::MaxRetriesExceeded),
    }
}

/// No script takes the executor past its bound: the attempt index never
/// exceeds the attempts allowed, and no more requests are sent than attempts
/// were begun.
pub proof fn lemma_retry_bound(
    state: RetryView,
    progress: ProgressView,
    script: Seq<ScriptedAttempt>,
)
    requires
        state.wf(),
    ensures
        replay(state, progress, script).state.wf(),
        replay(state, progress, script).state.max_attempts == state.max_attempts,
        replay(state, progress, script).state.requests <= state.max_attempts,
    decreases script.len(),
{
    if script.len() > 0 && state.awaiting() {
        let during = progress.advanced(script[0].uploaded);
        let (next, decision) = state.decided(script[0].event);
        let after = state.progress_after(script[0].event, during);
        if !(decision is Return) {
            lemma_retry_bound(next, after, script.drop_first());
        }
    }
}

/// The same for a run from the beginning.
pub proof fn lemma_execute_bound(
    max_attempts: nat,
    upload: bool,
    progress: ProgressView,
    script: Seq<ScriptedAttempt>,
)
    requires
        max_attempts <= u32::MAX,
    ensures
        execute(max_attempts, upload, progress, script).state.wf(),
        execute(max_attempts, upload, progress, script).state.attempt <= max_attempts,
        execute(max_attempts, upload, progress, script).state.requests <= max_attempts,
{
    lemma_retry_bound(RetryView::fresh(max_attempts, upload).started().0, progress, script);
}

/// Transport failures that leave attempts to spare are skipped over: each
/// costs one attempt and one request, and leaves the executor waiting; the
/// meter of an upload stands at 0 after each.
pub proof fn lemma_skip_failures(
    state: RetryView,
    progress: ProgressView,
    script: Seq<ScriptedAttempt>,
    k: int,
) -> (mid: ProgressView)
    requires
        state.wf(),
        state.awaiting(),
        transient_prefix(script, k),
        state.attempt + k <= state.max_attempts,
        k < script.len(),
    ensures
        replay(state, progress, script) == replay(
            RetryView {
                attempt: (state.attempt + k) as nat,
                requests: (state.requests + k) as nat,
                ..state
            },
            mid,
            script.skip(k),
        ),
        mid.total == progress.total,
        k == 0 ==> mid == progress,
        k > 0 ==> mid.phase == Phase::Waiting,
        k > 0 && state.upload ==> mid.uploaded == 0,
    decreases k,
{
    if k == 0 {
        assert(script.skip(0) =~= script);
        progress
    } else {
        let during = progress.advanced(script[0].uploaded);
        let next = state.decided(script[0].event).0;
        let after = state.progress_after(script[0].event, during);
        let rest = script.drop_first();
        let mid = lemma_skip_failures(next, after, rest, k - 1);
        assert(rest.skip(k - 1) =~= script.skip(k));
        mid
    }
}

/// The first attempt that does not fail in transport settles the run, as
/// long as it comes within the bound: the result is the verdict on that
/// attempt, every attempt before it cost one request, and the upload meter,
/// set back to 0 before each new attempt, shows only what the last attempt
/// consumed.
pub proof fn lemma_first_decisive_attempt(
    max_attempts: nat,
    upload: bool,
    progress: ProgressView,
    script: Seq<ScriptedAttempt>,
    k: int,
)
    requires
        max_attempts <= u32::MAX,
        transient_prefix(script, k),
        k < script.len(),
        k < max_attempts,
        !(script[k].event is TransportFailed),
    ensures
        ({
            let trace = execute(max_attempts, upload, progress, script);
            &&& trace.result == Some(settled(script[k].event, upload))
            &&& trace.state.attempt == k + 1
            &&& trace.state.requests == if script[k].event is BuildFailed {
                k
            } else {
                k + 1
            }
            &&& trace.state.finished
            &&& trace.progress.total == progress.total
            &&& k == 0 ==> trace.progress == progress.advanced(script[0].uploaded)
            &&& k > 0 && upload ==> trace.progress.uploaded == (ProgressView {
                uploaded: 0,
                ..progress
            }).advanced(script[k].uploaded).uploaded
        }),
{
    let begun = RetryView::fresh(max_attempts, upload).started().0;
    let _ = lemma_skip_failures(begun, progress, script, k);
}

/// A run in which every allowed attempt fails in transport ends with
/// `MaxRetriesExceeded`, after exactly as many requests as attempts were
/// allowed.
pub proof fn lemma_exhaustion(
    max_attempts: nat,
    upload: bool,
    progress: ProgressView,
    script: Seq<ScriptedAttempt>,
)
    requires
        max_attempts <= u32::MAX,
        script.len() >= max_attempts,
        transient_prefix(script, max_attempts as int),
    ensures
        ({
            let trace = execute(max_attempts, upload, progress, script);
            &&& trace.result == Some(
                Err::<ResponseView, TranscriptionErrorView>(
                    TranscriptionErrorView::MaxRetriesExceeded,
                ),
            )
            &&& trace.state.requests == max_attempts
            &&& trace.state.attempt == max_attempts
            &&& trace.state.finished
        }),
{
    if max_attempts > 0 {
        let begun = RetryView::fresh(max_attempts, upload).started().0;
        let _ = lemma_skip_failures(begun, progress, script, max_attempts - 1);
    }
}

/// A response of 401 ends the run with `InvalidApiKey` at once, whatever
/// attempts remain: answering the first attempt, it costs exactly one
/// request.
pub proof fn lemma_unauthorized_is_final(
    max_attempts: nat,
    upload: bool,
    progress: ProgressView,
    script: Seq<ScriptedAttempt>,
    k: int,
)
    requires
        max_attempts <= u32::MAX,
        transient_prefix(script, k),
        k < script.len(),
        k < max_attempts,
        script[k].event matches AttemptEventView::Responded(r) && is_unauthorized(r.status),
    ensures
        ({
            let trace = execute(max_attempts, upload, progress, script);
            &&& trace.result == Some(
                Err::<ResponseView, TranscriptionErrorView>(TranscriptionErrorView::InvalidApiKey),
            )
            &&& trace.state.requests == k + 1
            &&& trace.state.finished
        }),
{
    lemma_first_decisive_attempt(max_attempts, upload, progress, script, k);
}

/// An error status other than 401 ends the run with `ApiError` at once, and
/// carries status and body.
pub proof fn lemma_error_status_is_final(
    max_attempts: nat,
    upload: bool,
    progress: ProgressView,
    script: Seq<ScriptedAttempt>,
    k: int,
)
    requires
        max_attempts <= u32::MAX,
        transient_prefix(script, k),
        k < script.len(),
        k < max_attempts,
        script[k].event matches AttemptEventView::Responded(r) && is_error_status(r.status)
            && !is_unauthorized(r.status),
    ensures
        ({
            let trace = execute(max_attempts, upload, progress, script);
            &&& script[k].event matches AttemptEventView::Responded(r) && trace.result == Some(
                Err::<ResponseView, TranscriptionErrorView>(
                    TranscriptionErrorView::ApiError { status: r.status, body: r.body },
                ),
            )
            &&& trace.state.requests == k + 1
            &&& trace.state.finished
        }),
{
    lemma_first_decisive_attempt(max_attempts, upload, progress, script, k);
}

/// A run whose first attempts fail in transport and whose next attempt,
/// still within the bound, is answered without an error status succeeds with
/// that response. If it is an upload that was retried, the meter shows only
/// what the successful attempt consumed, however far the failed ones got.
pub proof fn lemma_success_after_failures(
    max_attempts: nat,
    upload: bool,
    progress: ProgressView,
    script: Seq<ScriptedAttempt>,
    k: int,
)
    requires
        max_attempts <= u32::MAX,
        transient_prefix(script, k),
        k < script.len(),
        k < max_attempts,
        script[k].event matches AttemptEventView::Responded(r) && !is_error_status(r.status),
    ensures
        ({
            let trace = execute(max_attempts, upload, progress, script);
            &&& script[k].event matches AttemptEventView::Responded(r) && trace.result == Some(
                Ok::<ResponseView, TranscriptionErrorView>(r),
            )
            &&& trace.state.requests == k + 1
            &&& trace.state.attempt == k + 1
            &&& k > 0 && upload ==> trace.progress.uploaded == (ProgressView {
                uploaded: 0,
                ..progress
            }).advanced(script[k].uploaded).uploaded
        }),
{
    lemma_first_decisive_attempt(max_attempts, upload, progress, script, k);
}

/// An input that no request can be built from ends the run with that input
/// error before anything is sent: zero requests.
pub proof fn lemma_input_error_fails_fast(
    max_attempts: nat,
    upload: bool,
    progress: ProgressView,
    script: Seq<ScriptedAttempt>,
    error: BuildError,
)
    requires
        0 < max_attempts <= u32::MAX,
        script.len() > 0,
        script[0].event == AttemptEventView::BuildFailed(error),
    ensures
        ({
            let trace = execute(max_attempts, upload, progress, script);
            &&& trace.result == Some(
                Err::<ResponseView, TranscriptionErrorView>(TranscriptionErrorView::Input(error)),
            )
            &&& trace.state.requests == 0
            &&& trace.state.finished
        }),
{
    lemma_first_decisive_attempt(max_attempts, upload, progress, script, 0);
}

} // verus!
