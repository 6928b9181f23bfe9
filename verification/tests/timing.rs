use sim_logic::timing::{GpuTimingSource, PendingTimings, MAX_PENDING};

#[test]
fn correlation_requires_both_id_and_source_and_accepts_out_of_order_completion() {
    let mut pending = PendingTimings::default();
    assert!(!pending.insert(10, GpuTimingSource::Scene3d, 100));
    assert!(!pending.insert(11, GpuTimingSource::FrameComposer, 100));
    assert!(!pending.insert(12, GpuTimingSource::Scene3d, 101));
    assert_eq!(pending.take(10, GpuTimingSource::FrameComposer), None);
    assert_eq!(pending.take(12, GpuTimingSource::Scene3d), Some(101));
    assert_eq!(pending.take(10, GpuTimingSource::Scene3d), Some(100));
    assert_eq!(pending.take(11, GpuTimingSource::FrameComposer), Some(100));
    assert_eq!(pending.take(10, GpuTimingSource::Scene3d), None);
}

#[test]
fn lost_samples_have_bounded_metadata_and_cannot_reuse_an_evicted_frame() {
    let mut pending = PendingTimings::default();
    for id in 1..=MAX_PENDING as u64 {
        assert!(!pending.insert(id, GpuTimingSource::Scene3d, id + 100));
    }
    assert!(pending.insert(17, GpuTimingSource::Scene3d, 117));
    assert_eq!(pending.take(1, GpuTimingSource::Scene3d), None);
    assert_eq!(pending.take(17, GpuTimingSource::Scene3d), Some(117));
    assert!(!pending.insert(18, GpuTimingSource::Scene3d, 118));
    assert_eq!(pending.take(2, GpuTimingSource::Scene3d), Some(102));
}

#[test]
fn repeated_submission_does_not_reassign_a_timing_id_to_another_frame() {
    let mut pending = PendingTimings::default();
    assert!(!pending.insert(1, GpuTimingSource::Scene3d, 10));
    assert!(!pending.insert(1, GpuTimingSource::Scene3d, 11));
    assert_eq!(pending.take(1, GpuTimingSource::Scene3d), Some(10));
}

#[test]
fn a_taken_association_is_gone_and_others_stay() {
    let mut pending = PendingTimings::new();
    assert!(!pending.insert(5, GpuTimingSource::FrameComposer, 50));
    assert!(!pending.insert(6, GpuTimingSource::FrameComposer, 60));
    assert_eq!(pending.take(5, GpuTimingSource::FrameComposer), Some(50));
    assert_eq!(pending.take(5, GpuTimingSource::FrameComposer), None);
    assert_eq!(pending.take(6, GpuTimingSource::FrameComposer), Some(60));
}

use sim_logic::timing::{CorrelatedSample, GpuTimingCorrelation};

#[test]
fn uninitialized_diagnostics_have_no_fabricated_gpu_times() {
    let diagnostics = GpuTimingCorrelation::new(0);
    assert_eq!(diagnostics.device_generation(), 0);
    assert!((0..8).all(|index| diagnostics.sample(index).is_none()));
    assert_eq!(diagnostics.unmatched_samples(), 0);
    assert_eq!(diagnostics.evicted_correlations(), 0);
}

#[test]
fn collected_samples_are_attributed_to_their_submitting_frames() {
    let mut diagnostics = GpuTimingCorrelation::new(3);
    diagnostics.submitted(100, GpuTimingSource::FrameComposer, Some(1));
    diagnostics.submitted(100, GpuTimingSource::Scene3d, Some(2));
    diagnostics.submitted(101, GpuTimingSource::FrameComposer, None);
    diagnostics.collect(&[
        (2, GpuTimingSource::Scene3d),
        (9, GpuTimingSource::Scene3d),
        (1, GpuTimingSource::FrameComposer),
    ]);
    assert_eq!(
        diagnostics.sample(0),
        Some(CorrelatedSample {
            logic_frame: 100,
            generation: 3,
            index: 0
        })
    );
    assert_eq!(diagnostics.sample(1), None);
    assert_eq!(diagnostics.sample(2).map(|sample| sample.logic_frame), Some(100));
    assert_eq!(diagnostics.unmatched_samples(), 1);
    // An empty collection keeps the previous samples.
    diagnostics.collect(&[]);
    assert!(diagnostics.sample(0).is_some());
    // A repeated sample cannot reuse a taken association.
    diagnostics.collect(&[(2, GpuTimingSource::Scene3d)]);
    assert_eq!(diagnostics.sample(0), None);
    assert_eq!(diagnostics.unmatched_samples(), 2);
}

#[test]
fn recovery_generation_discards_old_diagnostic_counters() {
    let mut diagnostics = GpuTimingCorrelation::new(1);
    for id in 1..=(MAX_PENDING as u64 + 2) {
        diagnostics.submitted(id, GpuTimingSource::Scene3d, Some(id));
    }
    diagnostics.collect(&[(1, GpuTimingSource::Scene3d), (18, GpuTimingSource::Scene3d)]);
    assert_eq!(diagnostics.evicted_correlations(), 2);
    assert_eq!(diagnostics.unmatched_samples(), 1);
    diagnostics.reset_generation(2);
    assert_eq!(diagnostics.device_generation(), 2);
    assert_eq!(diagnostics.unmatched_samples(), 0);
    assert_eq!(diagnostics.evicted_correlations(), 0);
    assert!((0..8).all(|index| diagnostics.sample(index).is_none()));
}

#[test]
fn only_the_first_eight_matched_samples_are_kept() {
    let mut diagnostics = GpuTimingCorrelation::new(0);
    for id in 0..10u64 {
        diagnostics.submitted(id + 50, GpuTimingSource::FrameComposer, Some(id));
    }
    let batch: Vec<_> = (0..10u64).map(|id| (id, GpuTimingSource::FrameComposer)).collect();
    diagnostics.collect(&batch);
    assert_eq!(diagnostics.sample(7).map(|sample| sample.logic_frame), Some(57));
    assert_eq!(diagnostics.sample(8), None);
    assert_eq!(diagnostics.unmatched_samples(), 2);
}
