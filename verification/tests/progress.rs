use transcribe::progress::{Phase, ProgressState, ProgressTracker};

#[test]
fn a_new_tracker_is_empty_and_preparing() {
    let tracker = ProgressTracker::new();
    assert_eq!(
        tracker.snapshot(),
        ProgressState {
            uploaded_bytes: 0,
            total_bytes: 0,
            phase: Phase::Preparing,
            message: String::new()
        }
    );
}

#[test]
fn chunks_that_sum_to_the_size_reach_it_exactly() {
    let mut tracker = ProgressTracker::new();
    tracker.set_total(10);
    let mut seen = vec![tracker.uploaded_bytes()];
    for chunk in [3u64, 3, 4] {
        tracker.advance(chunk);
        seen.push(tracker.uploaded_bytes());
    }
    assert_eq!(seen, vec![0, 3, 6, 10]);
    assert_eq!(tracker.uploaded_bytes(), tracker.total_bytes());
}

#[test]
fn a_single_chunk_of_the_whole_size_reaches_it() {
    let mut tracker = ProgressTracker::new();
    tracker.set_total(8192);
    tracker.advance(8192);
    assert_eq!(tracker.uploaded_bytes(), 8192);
}

#[test]
fn an_empty_chunk_changes_nothing() {
    let mut tracker = ProgressTracker::new();
    tracker.set_total(10);
    tracker.advance(5);
    tracker.advance(0);
    assert_eq!(tracker.uploaded_bytes(), 5);
}

#[test]
fn the_meter_stops_at_a_known_total() {
    let mut tracker = ProgressTracker::new();
    tracker.set_total(10);
    tracker.advance(7);
    tracker.advance(7);
    assert_eq!(tracker.uploaded_bytes(), 10);
    tracker.advance(u64::MAX);
    assert_eq!(tracker.uploaded_bytes(), 10);
}

#[test]
fn an_unknown_total_bounds_nothing_but_the_counter_itself() {
    let mut tracker = ProgressTracker::new();
    tracker.advance(7);
    tracker.advance(7);
    assert_eq!(tracker.uploaded_bytes(), 14);
    assert_eq!(tracker.total_bytes(), 0);
    tracker.advance(u64::MAX - 14);
    assert_eq!(tracker.uploaded_bytes(), u64::MAX);
    tracker.advance(1);
    assert_eq!(tracker.uploaded_bytes(), u64::MAX);
}

#[test]
fn reset_returns_the_meter_and_keeps_the_total() {
    let mut tracker = ProgressTracker::new();
    tracker.set_total(10);
    tracker.set_phase(Phase::Uploading, "Uploading...");
    tracker.advance(6);
    tracker.reset();
    let once = tracker.snapshot();
    assert_eq!(once.uploaded_bytes, 0);
    assert_eq!(once.total_bytes, 10);
    assert_eq!(once.phase, Phase::Uploading);
    assert_eq!(once.message, "Uploading...");
    tracker.reset();
    assert_eq!(tracker.snapshot(), once);
}

#[test]
fn a_smaller_total_pulls_the_meter_down() {
    let mut tracker = ProgressTracker::new();
    tracker.advance(50);
    tracker.set_total(20);
    assert_eq!(tracker.uploaded_bytes(), 20);
    assert_eq!(tracker.total_bytes(), 20);
    tracker.set_total(100);
    assert_eq!(tracker.uploaded_bytes(), 20);
    tracker.set_total(0);
    assert_eq!(tracker.uploaded_bytes(), 20);
    assert_eq!(tracker.total_bytes(), 0);
}

#[test]
fn set_phase_leaves_the_meter_alone() {
    let mut tracker = ProgressTracker::new();
    tracker.set_total(10);
    tracker.advance(4);
    tracker.set_phase(Phase::Transcribing, "Transcribing...");
    assert_eq!(
        tracker.snapshot(),
        ProgressState {
            uploaded_bytes: 4,
            total_bytes: 10,
            phase: Phase::Transcribing,
            message: "Transcribing...".to_string()
        }
    );
    assert_eq!(tracker.phase(), Phase::Transcribing);
}

#[test]
fn a_snapshot_does_not_follow_the_tracker() {
    let mut tracker = ProgressTracker::new();
    tracker.set_total(10);
    let before = tracker.snapshot();
    tracker.advance(4);
    assert_eq!(before.uploaded_bytes, 0);
    assert_eq!(tracker.snapshot().uploaded_bytes, 4);
}

#[test]
fn only_done_and_failed_are_terminal() {
    assert!(Phase::Done.is_terminal());
    assert!(Phase::Failed.is_terminal());
    for phase in [Phase::Preparing, Phase::Uploading, Phase::Waiting, Phase::Transcribing] {
        assert!(!phase.is_terminal());
    }
    assert_eq!(
        [
            Phase::Preparing.order(),
            Phase::Uploading.order(),
            Phase::Waiting.order(),
            Phase::Transcribing.order(),
            Phase::Done.order(),
            Phase::Failed.order()
        ],
        [0, 1, 2, 3, 4, 4]
    );
}
