//! Progress accounting for one run: an upload meter and a coarse phase.
//!
//! The tracker is a plain value. Code that shares it between the request path
//! and a renderer puts it behind a lock of its own; every operation here is a
//! short, total update, so a lock around each call is all the coordination
//! that is needed.

use vstd::prelude::*;
use vstd::string::*;

verus! {

/// Coarse state of a run, as shown to the user.
#[derive(Clone, Copy, Debug, PartialEq, Eq, Structural)]
pub enum Phase {
    Preparing,
    Uploading,
    Waiting,
    Transcribing,
    Done,
    Failed,
}

impl Phase {
    /// A run ends in `Done` or in `Failed`.
    pub open spec fn terminal(self) -> bool {
        self == Phase::Done || self == Phase::Failed
    }

    /// Position of the phase in the order in which a single attempt passes
    /// through them. The two terminal phases share the last position.
    pub open spec fn rank(self) -> nat {
        match self {
            Phase::Preparing => 0,
            Phase::Uploading => 1,
            Phase::Waiting => 2,
            Phase::Transcribing => 3,
            Phase::Done => 4,
            Phase::Failed => 4,
        }
    }

    pub fn is_terminal(self) -> (r: bool)
        ensures
            r == self.terminal(),
    {
        match self {
            Phase::Done | Phase::Failed => true,
            _ => false,
        }
    }

    pub fn order(self) -> (r: u8)
        ensures
            r == self.rank(),
    {
        match self {
            Phase::Preparing => 0,
            Phase::Uploading => 1,
            Phase::Waiting => 2,
            Phase::Transcribing => 3,
            Phase::Done => 4,
            Phase::Failed => 4,
        }
    }
}

/// Mathematical content of a tracker or of a snapshot.
pub struct ProgressView {
    pub uploaded: nat,
    pub total: nat,
    pub phase: Phase,
    pub message: Seq<char>,
}

impl ProgressView {
    /// The meter never runs past a known total. A total of 0 stands for
    /// "unknown" and bounds nothing.
    pub open spec fn wf(self) -> bool {
        &&& self.uploaded <= u64::MAX
        &&& self.total <= u64::MAX
        &&& self.total > 0 ==> self.uploaded <= self.total
    }

    /// Highest value the meter can show.
    pub open spec fn ceiling(self) -> nat {
        if self.total > 0 {
            self.total
        } else {
            u64::MAX as nat
        }
    }

    /// Content of a fresh tracker.
    pub open spec fn initial() -> ProgressView {
        ProgressView { uploaded: 0, total: 0, phase: Phase::Preparing, message: Seq::empty() }
    }

    /// Effect of `set_total`: the total is replaced, and a meter that would
    /// stand above a known new total is pulled down to it.
    pub open spec fn with_total(self, bytes: nat) -> ProgressView {
        ProgressView {
            uploaded: if bytes > 0 && self.uploaded > bytes {
                bytes
            } else {
                self.uploaded
            },
            total: bytes,
            ..self
        }
    }

    /// Effect of `advance`: the meter grows by `bytes` and stops at the
    /// ceiling.
    pub open spec fn advanced(self, bytes: nat) -> ProgressView {
        ProgressView {
            uploaded: if self.uploaded + bytes > self.ceiling() {
                self.ceiling()
            } else {
                self.uploaded + bytes
            },
            ..self
        }
    }

    /// Effect of `set_phase`.
    pub open spec fn with_phase(self, phase: Phase, message: Seq<char>) -> ProgressView {
        ProgressView { phase, message, ..self }
    }

    /// Effect of `reset`: the meter returns to 0, the total stays.
    pub open spec fn rewound(self) -> ProgressView {
        ProgressView { uploaded: 0, ..self }
    }

    /// The meter after the chunks of `chunks` were consumed in order.
    pub open spec fn streamed(self, chunks: Seq<nat>) -> ProgressView
        decreases chunks.len(),
    {
        if chunks.len() == 0 {
            self
        } else {
            self.streamed(chunks.drop_last()).advanced(chunks.last())
        }
    }
}

/// Sum of the lengths of a sequence of chunks.
pub open spec fn chunk_sum(chunks: Seq<nat>) -> nat
    decreases chunks.len(),
{
    if chunks.len() == 0 {
        0
    } else {
        chunk_sum(chunks.drop_last()) + chunks.last()
    }
}

/// A prefix of a chunk sequence sums to no more than the whole.
pub proof fn lemma_chunk_sum_prefix(chunks: Seq<nat>, k: int)
    requires
        0 <= k <= chunks.len(),
    ensures
        chunk_sum(chunks.take(k)) <= chunk_sum(chunks),
        k < chunks.len() ==> chunk_sum(chunks.take(k + 1)) == chunk_sum(chunks.take(k))
            + chunks[k],
    decreases chunks.len() - k,
{
    if k == chunks.len() {
        assert(chunks.take(k) =~= chunks);
    } else {
        assert(chunks.take(k + 1).drop_last() =~= chunks.take(k));
        lemma_chunk_sum_prefix(chunks, k + 1);
    }
}

/// While the chunks fit under the ceiling, the meter shows exactly the bytes
/// consumed so far; total, phase and message are not touched.
pub proof fn lemma_stream_exact(p: ProgressView, chunks: Seq<nat>)
    requires
        p.wf(),
        p.uploaded + chunk_sum(chunks) <= p.ceiling(),
    ensures
        p.streamed(chunks) == (ProgressView { uploaded: p.uploaded + chunk_sum(chunks), ..p }),
        p.streamed(chunks).wf(),
    decreases chunks.len(),
{
    if chunks.len() > 0 {
        lemma_stream_exact(p, chunks.drop_last());
    }
}

/// Streaming a file whose size is known: with the meter at 0 and the total
/// set to the sum of the chunks, the meter after any `k` chunks shows the sum
/// of those chunks, never more than the total; each chunk that is not empty
/// raises it strictly; and after the last chunk it shows exactly the total.
pub proof fn lemma_stream_reaches_total(p: ProgressView, chunks: Seq<nat>, k: int)
    requires
        p.wf(),
        p.uploaded == 0,
        p.total == chunk_sum(chunks),
        0 <= k <= chunks.len(),
    ensures
        p.streamed(chunks.take(k)).uploaded == chunk_sum(chunks.take(k)),
        p.streamed(chunks.take(k)).uploaded <= p.total,
        k < chunks.len() && chunks[k] > 0 ==> p.streamed(chunks.take(k)).uploaded < p.streamed(
            chunks.take(k + 1),
        ).uploaded,
        p.streamed(chunks).uploaded == p.total,
        p.streamed(chunks).total == p.total,
{
    lemma_chunk_sum_prefix(chunks, k);
    lemma_stream_exact(p, chunks.take(k));
    lemma_chunk_sum_prefix(chunks, chunks.len() as int);
    lemma_stream_exact(p, chunks);
    if k < chunks.len() {
        lemma_chunk_sum_prefix(chunks, k + 1);
        lemma_stream_exact(p, chunks.take(k + 1));
    }
}

/// `reset` twice is `reset` once, and it never touches the total.
pub proof fn lemma_reset_idempotent(p: ProgressView)
    ensures
        p.rewound().rewound() == p.rewound(),
        p.rewound().total == p.total,
        p.rewound().uploaded == 0,
{
}

/// Within one attempt the meter never goes down, and it never passes the
/// ceiling.
pub proof fn lemma_advance_monotone(p: ProgressView, bytes: nat)
    requires
        p.wf(),
    ensures
        p.uploaded <= p.advanced(bytes).uploaded <= p.ceiling(),
        p.advanced(bytes).wf(),
{
}

/// A copy of the tracker's content, for rendering.
#[derive(Debug, PartialEq, Eq)]
pub struct ProgressState {
    pub uploaded_bytes: u64,
    pub total_bytes: u64,
    pub phase: Phase,
    pub message: String,
}

impl View for ProgressState {
    type V = ProgressView;

    open spec fn view(&self) -> ProgressView {
        ProgressView {
            uploaded: self.uploaded_bytes as nat,
            total: self.total_bytes as nat,
            phase: self.phase,
            message: self.message@,
        }
    }
}

/// Upload meter and phase of one run.
#[derive(Debug)]
pub struct ProgressTracker {
    uploaded_bytes: u64,
    total_bytes: u64,
    phase: Phase,
    message: String,
}

impl View for ProgressTracker {
    type V = ProgressView;

    closed spec fn view(&self) -> ProgressView {
        ProgressView {
            uploaded: self.uploaded_bytes as nat,
            total: self.total_bytes as nat,
            phase: self.phase,
            message: self.message@,
        }
    }
}

impl ProgressTracker {
    #[verifier::type_invariant]
    spec fn inv(&self) -> bool {
        self.total_bytes > 0 ==> self.uploaded_bytes <= self.total_bytes
    }

    /// A tracker with an empty meter, an unknown total and phase `Preparing`.
    pub fn new() -> (r: ProgressTracker)
        ensures
            r@ == ProgressView::initial(),
            r@.wf(),
    {
        ProgressTracker {
            uploaded_bytes: 0,
            total_bytes: 0,
            phase: Phase::Preparing,
            message: String::new(),
        }
    }

    /// Sets the number of bytes the current attempt will upload; 0 for
    /// "unknown".
    pub fn set_total(&mut self, bytes: u64)
        ensures
            final(self)@ == old(self)@.with_total(bytes as nat),
            final(self)@.wf(),
    {
        proof {
            use_type_invariant(&*self);
        }
        if bytes > 0 && self.uploaded_bytes > bytes {
            self.uploaded_bytes = bytes;
        }
        self.total_bytes = bytes;
    }

    /// Counts `bytes` more bytes as handed to the transport.
    pub fn advance(&mut self, bytes: u64)
        ensures
            final(self)@ == old(self)@.advanced(bytes as nat),
            final(self)@.wf(),
    {
        proof {
            use_type_invariant(&*self);
        }
        let ceiling: u64 = if self.total_bytes > 0 {
            self.total_bytes
        } else {
            u64::MAX
        };
        if bytes > ceiling - self.uploaded_bytes {
            self.uploaded_bytes = ceiling;
        } else {
            self.uploaded_bytes = self.uploaded_bytes + bytes;
        }
    }

    /// Replaces phase and message; the meter is untouched.
    pub fn set_phase(&mut self, phase: Phase, message: &str)
        ensures
            final(self)@ == old(self)@.with_phase(phase, message@),
            final(self)@.wf(),
    {
        proof {
            use_type_invariant(&*self);
        }
        self.phase = phase;
        self.message = String::from_str(message);
    }

    /// Returns the meter to 0 and keeps the total.
    pub fn reset(&mut self)
        ensures
            final(self)@ == old(self)@.rewound(),
            final(self)@.wf(),
    {
        proof {
            use_type_invariant(&*self);
        }
        self.uploaded_bytes = 0;
    }

    pub fn uploaded_bytes(&self) -> (r: u64)
        ensures
            r == self@.uploaded,
    {
        self.uploaded_bytes
    }

    pub fn total_bytes(&self) -> (r: u64)
        ensures
            r == self@.total,
    {
        self.total_bytes
    }

    pub fn phase(&self) -> (r: Phase)
        ensures
            r == self@.phase,
    {
        self.phase
    }

    /// The content of the tracker at this moment.
    pub fn snapshot(&self) -> (r: ProgressState)
        ensures
            r@ == self@,
            r@.wf(),
    {
        proof {
            use_type_invariant(self);
        }
        ProgressState {
            uploaded_bytes: self.uploaded_bytes,
            total_bytes: self.total_bytes,
            phase: self.phase,
            message: self.message.clone(),
        }
    }
}

} // verus!
