use sim_logic::desktop::{
    callback_may_run, extent_is_occluded, presentation_decision, renderer_failure_action,
    skipped_surface_action, snapshot_is_fresh, transition_resets_wall_clock, validate_title,
    DesktopConfigError, DesktopExitReason, FrameTransition, LogicFrameSummary,
    PresentationDecision, RendererFailureAction, SkippedSurfaceAction, SurfaceStatus,
    MAX_TITLE_BYTES,
};
use sim_logic::desktop::{surface_waiting_after, DesktopRunReport};
use sim_logic::identity::{ApplicationId, WorldGeneration};

#[test]
fn terminal_callbacks_cannot_run_after_close_or_failure() {
    assert!(callback_may_run(false, false));
    assert!(
        !callback_may_run(false, true),
        "normal exit has no fatal error"
    );
    assert!(
        !callback_may_run(true, false),
        "failure stops before exit dispatch"
    );
    assert!(!callback_may_run(true, true));
}

#[test]
fn stale_or_unpublished_snapshots_are_never_fresh() {
    let application = ApplicationId::from_raw(9);
    let old = WorldGeneration::new(application, 1);
    let active = WorldGeneration::new(application, 2);

    assert!(snapshot_is_fresh(Some(active), Some(active), active));
    assert!(!snapshot_is_fresh(Some(active), Some(old), active));
    assert!(!snapshot_is_fresh(Some(old), Some(active), active));
    assert!(!snapshot_is_fresh(None, Some(active), active));
    assert!(!snapshot_is_fresh(Some(active), None, active));
}

#[test]
fn surface_outcomes_follow_the_desktop_retry_policy() {
    assert_eq!(
        skipped_surface_action(SurfaceStatus::Timeout),
        SkippedSurfaceAction::RetryLater
    );
    assert_eq!(
        skipped_surface_action(SurfaceStatus::Occluded),
        SkippedSurfaceAction::WaitForWindowEvent
    );
    assert_eq!(
        skipped_surface_action(SurfaceStatus::Outdated),
        SkippedSurfaceAction::ReconfigureThenRetry
    );
    assert_eq!(
        skipped_surface_action(SurfaceStatus::Lost),
        SkippedSurfaceAction::Fail
    );
    assert_eq!(
        skipped_surface_action(SurfaceStatus::Validation),
        SkippedSurfaceAction::Fail
    );

    let lost = Some(SurfaceStatus::Lost);
    assert_eq!(
        renderer_failure_action(lost),
        RendererFailureAction::RecoverDeviceAndSurface {
            reset_wall_clock_on_success: true,
        }
    );
}

#[test]
fn transition_and_recovery_clock_reset_policy_is_explicit() {
    assert!(!transition_resets_wall_clock(&FrameTransition::Unchanged));
    assert!(transition_resets_wall_clock(&FrameTransition::Committed));
    assert!(transition_resets_wall_clock(
        &FrameTransition::PreparationFailed
    ));

    let lost = Some(SurfaceStatus::Lost);
    assert_eq!(
        renderer_failure_action(lost),
        RendererFailureAction::RecoverDeviceAndSurface {
            reset_wall_clock_on_success: true,
        }
    );
}

#[test]
fn non_surface_and_validation_failures_are_fatal() {
    assert_eq!(
        renderer_failure_action(Some(SurfaceStatus::Validation)),
        RendererFailureAction::Fail
    );
    assert_eq!(renderer_failure_action(None), RendererFailureAction::Fail);
}

fn summary(failed: bool, exit_requested: bool, extracted: Option<WorldGeneration>) -> LogicFrameSummary {
    LogicFrameSummary {
        failed,
        exit_requested,
        extracted_generation: extracted,
    }
}

#[test]
fn presentation_checks_failure_exit_staleness_then_occlusion() {
    let application = ApplicationId::from_raw(9);
    let active = WorldGeneration::new(application, 2);
    let foreign = WorldGeneration::new(ApplicationId::from_raw(900), 1);
    let fresh = summary(false, false, Some(active));

    assert_eq!(
        presentation_decision(&fresh, Some(active), active, false),
        PresentationDecision::PresentWorld
    );
    assert_eq!(
        presentation_decision(&fresh, Some(foreign), active, false),
        PresentationDecision::SkipStaleSnapshot
    );
    assert_eq!(
        presentation_decision(&fresh, Some(active), active, true),
        PresentationDecision::SkipOccludedWindow
    );
    assert_eq!(
        presentation_decision(&summary(false, true, None), Some(active), active, false),
        PresentationDecision::ApplicationExit
    );
    assert_eq!(
        presentation_decision(&summary(true, true, Some(active)), Some(active), active, true),
        PresentationDecision::DiagnosticsOnly
    );
    assert_eq!(
        presentation_decision(&summary(false, false, None), Some(active), active, false),
        PresentationDecision::SkipStaleSnapshot
    );
}

#[test]
fn zero_area_extents_are_occluded() {
    assert!(!extent_is_occluded(1_200, 800));
    assert!(extent_is_occluded(0, 800));
    assert!(extent_is_occluded(1_200, 0));
    assert!(extent_is_occluded(0, 0));
}

#[test]
fn window_titles_need_a_visible_character_and_fit_the_limit() {
    assert_eq!(validate_title(" "), Err(DesktopConfigError::EmptyTitle));
    assert_eq!(validate_title(""), Err(DesktopConfigError::EmptyTitle));
    assert_eq!(
        validate_title("\t\n\u{3000}\u{2029}\u{85}"),
        Err(DesktopConfigError::EmptyTitle)
    );
    assert_eq!(validate_title("Sim;Logic"), Ok(()));
    assert_eq!(validate_title(" x "), Ok(()));
    assert_eq!(validate_title(&"a".repeat(MAX_TITLE_BYTES)), Ok(()));
    assert_eq!(
        validate_title(&"a".repeat(MAX_TITLE_BYTES + 1)),
        Err(DesktopConfigError::TitleTooLong { limit: 256 })
    );
    // Multi-byte characters count by their UTF-8 bytes.
    assert_eq!(
        validate_title(&"é".repeat(129)),
        Err(DesktopConfigError::TitleTooLong { limit: 256 })
    );
    assert_eq!(validate_title(&"é".repeat(128)), Ok(()));
}

#[test]
fn window_close_is_the_default_exit_reason() {
    assert_eq!(DesktopExitReason::default(), DesktopExitReason::WindowClosed);
    assert_ne!(
        DesktopExitReason::default(),
        DesktopExitReason::ApplicationRequested
    );
}

#[test]
fn application_exit_is_recorded_in_the_run_counters() {
    let mut desktop = DesktopRunReport::default();
    assert_eq!(desktop.exit_reason(), DesktopExitReason::WindowClosed);
    desktop.record_logic_frame(FrameTransition::Unchanged);
    desktop.record_application_exit();
    assert_eq!(desktop.exit_reason(), DesktopExitReason::ApplicationRequested);
    assert_eq!(desktop.drawn_frames(), 0);
    assert_eq!(desktop.skipped_frames(), 0);
    assert_eq!(desktop.logic_frames(), 1);
    assert_eq!(desktop.committed_transitions(), 0);
    assert_eq!(desktop.device_recoveries(), 0);
}

#[test]
fn run_counters_count_frames_transitions_and_recoveries() {
    let mut counters = DesktopRunReport::default();
    counters.record_logic_frame(FrameTransition::Committed);
    counters.record_logic_frame(FrameTransition::PreparationFailed);
    counters.record_drawn();
    counters.record_skipped();
    assert_eq!(counters.record_recovery(), 1);
    assert_eq!(counters.record_recovery(), 2);
    assert_eq!(counters.logic_frames, 2);
    assert_eq!(counters.committed_transitions, 1);
    assert_eq!((counters.drawn_frames, counters.skipped_frames), (1, 1));
    counters.drawn_frames = u64::MAX;
    counters.record_drawn();
    assert_eq!(counters.drawn_frames, u64::MAX);
    assert_eq!(surface_waiting_after(SkippedSurfaceAction::RetryLater), Some(false));
    assert_eq!(surface_waiting_after(SkippedSurfaceAction::WaitForWindowEvent), Some(true));
    assert_eq!(surface_waiting_after(SkippedSurfaceAction::ReconfigureThenRetry), Some(false));
    assert_eq!(surface_waiting_after(SkippedSurfaceAction::Fail), None);
}

#[test]
fn presentation_requires_the_report_snapshot_and_active_generation_to_match() {
    let active = WorldGeneration::new(ApplicationId::from_raw(1), 1);
    let report = summary(false, false, Some(active));
    let snapshot = Some(active);
    let foreign = WorldGeneration::new(ApplicationId::from_raw(900), 1);

    assert_eq!(
        presentation_decision(&report, snapshot, active, false),
        PresentationDecision::PresentWorld
    );
    assert_eq!(
        presentation_decision(&report, Some(foreign), active, false),
        PresentationDecision::SkipStaleSnapshot
    );
    assert_eq!(
        presentation_decision(&report, snapshot, active, true),
        PresentationDecision::SkipOccludedWindow
    );
}

#[test]
fn application_exit_is_recorded_without_another_presentation() {
    let active = WorldGeneration::new(ApplicationId::from_raw(1), 1);
    // The exit frame extracted nothing.
    let report = summary(false, true, None);
    assert_eq!(
        presentation_decision(&report, None, active, false),
        PresentationDecision::ApplicationExit
    );

    let mut desktop = DesktopRunReport::default();
    assert_eq!(desktop.exit_reason, DesktopExitReason::WindowClosed);
    desktop.record_logic_frame(FrameTransition::Unchanged);
    desktop.record_application_exit();
    assert_eq!(desktop.exit_reason, DesktopExitReason::ApplicationRequested);
    assert_eq!(desktop.drawn_frames, 0);
    assert_eq!(desktop.skipped_frames, 0);
}

#[test]
fn desktop_configuration_rejects_unbounded_window_values() {
    // The title half of the configuration rules; logical sizes are floating
    // point and are checked beside the window.
    assert_eq!(validate_title(" "), Err(DesktopConfigError::EmptyTitle));
}

#[test]
fn screen_pass_is_optional_and_always_follows_the_world() {
    assert!(sim_logic::desktop::screen_pass_order(0).is_none());
    for count in [1, 256, usize::MAX] {
        assert_eq!(sim_logic::desktop::screen_pass_order(count), Some(1));
    }
}
