use sim_logic::desktop::{
    DesktopExitReason, DesktopRunReport, FrameTransition, LogicFrameSummary,
    PresentationDecision, SurfaceStatus,
};
use sim_logic::identity::{ApplicationId, WorldGeneration};
use sim_logic::input_buffer::InputBufferFailure;
use sim_logic::redraw::{
    redraw_ready, redraw_step, AdvancedFrame, PresentOutcome, RedrawAction, RedrawEvent,
    RedrawPhase, RedrawState, StopReason,
};

fn active() -> WorldGeneration {
    WorldGeneration::new(ApplicationId::from_raw(1), 1)
}

fn request() -> RedrawEvent {
    RedrawEvent::Requested { failed: false, exiting: false, input_failure: None, has_renderer: true }
}

fn advanced(failed: bool, exit: bool, transition: FrameTransition) -> RedrawEvent {
    RedrawEvent::LogicAdvanced {
        frame: Some(AdvancedFrame {
            summary: LogicFrameSummary {
                failed,
                exit_requested: exit,
                extracted_generation: if exit { None } else { Some(active()) },
            },
            transition,
        }),
        snapshot: Some(active()),
        active: active(),
        occluded: false,
    }
}

fn to_presentation() -> RedrawState {
    let state = redraw_ready(DesktopRunReport::default(), false);
    let (state, action) = redraw_step(state, request());
    assert_eq!(action, RedrawAction::ReadViewport);
    let (state, action) = redraw_step(state, RedrawEvent::ViewportRead { ok: true });
    assert_eq!(action, RedrawAction::AdvanceLogic);
    let (state, action) = redraw_step(state, advanced(false, false, FrameTransition::Committed));
    assert_eq!(
        action,
        RedrawAction::Frame { reset_wall_clock: true, decision: PresentationDecision::PresentWorld }
    );
    assert_eq!(state.phase, RedrawPhase::PresentationPending);
    state
}

#[test]
fn a_drawn_frame_counts_and_ends_the_redraw() {
    let (state, action) = redraw_step(to_presentation(), RedrawEvent::Presented { outcome: PresentOutcome::Drawn });
    assert_eq!(action, RedrawAction::Finish { reset_wall_clock: false });
    assert_eq!(state.phase, RedrawPhase::Ready);
    assert_eq!((state.counters.logic_frames, state.counters.drawn_frames), (1, 1));
    assert_eq!(state.counters.committed_transitions, 1);
}

#[test]
fn terminal_guard_and_input_failure_stop_before_any_frame() {
    let state = redraw_ready(DesktopRunReport::default(), false);
    let closed = RedrawEvent::Requested { failed: false, exiting: true, input_failure: None, has_renderer: true };
    assert_eq!(redraw_step(state, closed), (state, RedrawAction::Nothing));
    let overflow = RedrawEvent::Requested {
        failed: false,
        exiting: false,
        input_failure: Some(InputBufferFailure::Limit),
        has_renderer: true,
    };
    let (stopped, action) = redraw_step(state, overflow);
    assert_eq!(
        action,
        RedrawAction::StopAfterTimings { reason: StopReason::Input { failure: InputBufferFailure::Limit } }
    );
    assert_eq!(redraw_step(stopped, request()), (stopped, RedrawAction::Nothing));
}

#[test]
fn application_exit_ends_the_loop_without_presenting() {
    let state = redraw_ready(DesktopRunReport::default(), false);
    let (state, _) = redraw_step(state, request());
    let (state, _) = redraw_step(state, RedrawEvent::ViewportRead { ok: true });
    let (state, action) = redraw_step(state, advanced(false, true, FrameTransition::Unchanged));
    assert_eq!(
        action,
        RedrawAction::Frame { reset_wall_clock: false, decision: PresentationDecision::ApplicationExit }
    );
    assert_eq!(state.phase, RedrawPhase::Stopped);
    assert_eq!(state.counters.exit_reason, DesktopExitReason::ApplicationRequested);
    assert_eq!(state.counters.drawn_frames, 0);
}

#[test]
fn skipped_surfaces_follow_the_retry_policy() {
    let occluded = PresentOutcome::Skipped { status: SurfaceStatus::Occluded };
    let (state, action) = redraw_step(to_presentation(), RedrawEvent::Presented { outcome: occluded });
    assert_eq!(action, RedrawAction::Finish { reset_wall_clock: false });
    assert!(state.surface_waiting);
    assert_eq!(state.counters.skipped_frames, 1);
    let outdated = PresentOutcome::Skipped { status: SurfaceStatus::Outdated };
    let (state, action) = redraw_step(to_presentation(), RedrawEvent::Presented { outcome: outdated });
    assert_eq!(action, RedrawAction::ReconfigureSurface);
    let (state, action) = redraw_step(state, RedrawEvent::Reconfigured { ok: false });
    assert_eq!(action, RedrawAction::Stop { reason: StopReason::SurfaceConfiguration });
    assert_eq!(state.phase, RedrawPhase::Stopped);
}

#[test]
fn a_lost_surface_is_recovered_and_restarts_the_clock() {
    let lost = PresentOutcome::RendererFailed { surface: Some(SurfaceStatus::Lost) };
    let (state, action) = redraw_step(to_presentation(), RedrawEvent::Presented { outcome: lost });
    assert_eq!(action, RedrawAction::RecoverDevice);
    let (state, action) = redraw_step(state, RedrawEvent::Recovered { device: true, three_d: true });
    assert_eq!(action, RedrawAction::Finish { reset_wall_clock: true });
    assert_eq!(state.counters.device_recoveries, 1);
    let other = PresentOutcome::RendererFailed { surface: None };
    let (_, action) = redraw_step(to_presentation(), RedrawEvent::Presented { outcome: other });
    assert_eq!(action, RedrawAction::Stop { reason: StopReason::Presentation });
}

#[test]
fn a_failed_frame_presents_diagnostics_and_stops() {
    let state = redraw_ready(DesktopRunReport::default(), false);
    let (state, _) = redraw_step(state, request());
    let (state, _) = redraw_step(state, RedrawEvent::ViewportRead { ok: true });
    let (state, action) = redraw_step(state, advanced(true, false, FrameTransition::Unchanged));
    assert_eq!(
        action,
        RedrawAction::Frame { reset_wall_clock: false, decision: PresentationDecision::DiagnosticsOnly }
    );
    let _: RedrawState = state;
    assert_eq!(state.phase, RedrawPhase::Stopped);
}
