//! One redraw of the desktop host as a state machine: the host performs
//! each action (read the viewport, advance the logic core, present, handle
//! a skipped surface, recover the device) and hands back what came of it;
//! this step decides what follows, keeps the run counters and whether the
//! host waits for a window event, and ends the loop on every failure.

use vstd::prelude::*;
use crate::desktop::{
    bumped, callback_may_run, presentation_decision, renderer_failure_action,
    skipped_surface_action, spec_presentation_decision, spec_skipped_surface_action,
    transition_resets_wall_clock, DesktopExitReason, DesktopRunReport, FrameTransition,
    LogicFrameSummary, PresentationDecision, RendererFailureAction, SkippedSurfaceAction,
    SurfaceStatus,
};
use crate::identity::WorldGeneration;
use crate::input_buffer::InputBufferFailure;

verus! {

/// Where a redraw stands.
#[derive(Debug, Clone, Copy, PartialEq, Eq, Structural)]
pub enum RedrawPhase {
    /// Waiting for the next redraw request.
    Ready,
    /// The logical viewport is being read.
    ViewportPending,
    /// The logic core is advancing one frame.
    LogicPending,
    /// The world is being presented.
    PresentationPending,
    /// The surface is being reconfigured after a skipped frame.
    ReconfigurePending,
    /// The device and surface are being recovered.
    RecoveryPending {
        /// Whether a successful recovery restarts the frame clock.
        reset_wall_clock_on_success: bool,
    },
    /// The loop has ended; nothing more runs.
    Stopped,
}

/// Why the loop ended with an error.
#[derive(Debug, Clone, Copy, PartialEq, Eq, Structural)]
pub enum StopReason {
    /// The input queue failed before the frame.
    Input {
        /// The queue's failure.
        failure: InputBufferFailure,
    },
    /// The logical viewport could not be read.
    Viewport,
    /// The logic core refused to begin the frame.
    BeginFrame,
    /// Preparing images, labels or 3D work failed.
    Preparation,
    /// Presentation failed and cannot be recovered.
    Presentation,
    /// Reconfiguring the surface after a skipped frame failed.
    SurfaceConfiguration,
    /// Device recovery failed.
    Recovery,
}

/// The host's redraw state.
#[derive(Debug, Clone, Copy, PartialEq, Eq, Structural)]
pub struct RedrawState {
    /// Where the redraw stands.
    pub phase: RedrawPhase,
    /// The run counters.
    pub counters: DesktopRunReport,
    /// The host waits for a window event before drawing again.
    pub surface_waiting: bool,
}

/// What came of the presentation the host performed.
#[derive(Debug, Clone, Copy, PartialEq, Eq, Structural)]
pub enum PresentOutcome {
    /// The frame reached the surface.
    Drawn,
    /// The surface could not be acquired.
    Skipped {
        /// Its status.
        status: SurfaceStatus,
    },
    /// Preparing images, labels or 3D work failed.
    PreparationFailed,
    /// The renderer failed; `surface` is the surface status of a
    /// surface-acquisition failure, `None` otherwise.
    RendererFailed {
        /// The failure's surface status.
        surface: Option<SurfaceStatus>,
    },
}

/// One advanced logical frame.
#[derive(Debug, Clone, Copy, PartialEq, Eq, Structural)]
pub struct AdvancedFrame {
    /// What presentation needs to know of it.
    pub summary: LogicFrameSummary,
    /// The world transition it carried.
    pub transition: FrameTransition,
}

/// What the host hands back.
#[derive(Debug, Clone, Copy, PartialEq, Eq, Structural)]
pub enum RedrawEvent {
    /// The platform asked for a redraw.
    Requested {
        /// A fatal failure was recorded before.
        failed: bool,
        /// The event loop is exiting.
        exiting: bool,
        /// The input queue's failure, if any.
        input_failure: Option<InputBufferFailure>,
        /// A renderer exists.
        has_renderer: bool,
    },
    /// The viewport was read, or not.
    ViewportRead {
        /// The read succeeded.
        ok: bool,
    },
    /// The logic core advanced, or refused (`None`).
    LogicAdvanced {
        /// The frame's summary and transition.
        frame: Option<AdvancedFrame>,
        /// Generation of the published snapshot.
        snapshot: Option<WorldGeneration>,
        /// Generation of the active world.
        active: WorldGeneration,
        /// The window is occluded.
        occluded: bool,
    },
    /// The presentation finished.
    Presented {
        /// What came of it.
        outcome: PresentOutcome,
    },
    /// The surface was reconfigured, or not.
    Reconfigured {
        /// Reconfiguration succeeded.
        ok: bool,
    },
    /// Device recovery finished.
    Recovered {
        /// Device and surface were recovered.
        device: bool,
        /// Retained 3D resources were restored on the new device.
        three_d: bool,
    },
}

/// What the host does next.
#[derive(Debug, Clone, Copy, PartialEq, Eq, Structural)]
pub enum RedrawAction {
    /// Nothing; the callback ends.
    Nothing,
    /// Service ready GPU timings, then read the logical viewport.
    ReadViewport,
    /// Service ready GPU timings, then stop the loop.
    StopAfterTimings {
        /// Why.
        reason: StopReason,
    },
    /// Stop the loop, releasing the cursor capture.
    Stop {
        /// Why.
        reason: StopReason,
    },
    /// Advance the logic core with the queued input, then clear the queue.
    AdvanceLogic,
    /// Synchronise the capture, then act on the frame: `reset_wall_clock`
    /// restarts the frame clock first. A failed frame presents a diagnostic
    /// frame and stops the loop; an exit request releases the capture and
    /// ends the loop; a skipped frame keeps its report; a presented one
    /// continues with the presentation.
    Frame {
        /// Restart the frame clock.
        reset_wall_clock: bool,
        /// What the frame presents.
        decision: PresentationDecision,
    },
    /// Reconfigure the surface for the window's current size.
    ReconfigureSurface,
    /// Recover the device and surface.
    RecoverDevice,
    /// Keep the frame's report; the redraw is over. `reset_wall_clock`
    /// restarts the frame clock first.
    Finish {
        /// Restart the frame clock.
        reset_wall_clock: bool,
    },
}

/// The stopped state with the given counters.
pub open spec fn stopped(state: RedrawState) -> RedrawState {
    RedrawState { phase: RedrawPhase::Stopped, ..state }
}

/// The next state and action of a redraw.
pub open spec fn spec_redraw_step(state: RedrawState, event: RedrawEvent) -> (
    RedrawState,
    RedrawAction,
) {
    match (state.phase, event) {
        (RedrawPhase::Stopped, _) => (state, RedrawAction::Nothing),
        (RedrawPhase::Ready, RedrawEvent::Requested { failed, exiting, input_failure, has_renderer }) => {
            if failed || exiting {
                (state, RedrawAction::Nothing)
            } else if input_failure is Some {
                (
                    stopped(state),
                    RedrawAction::StopAfterTimings {
                        reason: StopReason::Input { failure: input_failure->0 },
                    },
                )
            } else if !has_renderer {
                (state, RedrawAction::Nothing)
            } else {
                (
                    RedrawState { phase: RedrawPhase::ViewportPending, ..state },
                    RedrawAction::ReadViewport,
                )
            }
        },
        (RedrawPhase::ViewportPending, RedrawEvent::ViewportRead { ok }) => {
            if ok {
                (RedrawState { phase: RedrawPhase::LogicPending, ..state }, RedrawAction::AdvanceLogic)
            } else {
                (stopped(state), RedrawAction::Stop { reason: StopReason::Viewport })
            }
        },
        (
            RedrawPhase::LogicPending,
            RedrawEvent::LogicAdvanced { frame, snapshot, active, occluded },
        ) => match frame {
            None => (stopped(state), RedrawAction::Stop { reason: StopReason::BeginFrame }),
            Some(AdvancedFrame { summary, transition }) => {
                let counters = DesktopRunReport {
                    logic_frames: bumped(state.counters.logic_frames),
                    committed_transitions: if transition is Committed {
                        bumped(state.counters.committed_transitions)
                    } else {
                        state.counters.committed_transitions
                    },
                    ..state.counters
                };
                let reset = transition is Committed || transition is PreparationFailed;
                let decision = spec_presentation_decision(summary, snapshot, active, occluded);
                let phase = match decision {
                    PresentationDecision::PresentWorld => RedrawPhase::PresentationPending,
                    PresentationDecision::SkipStaleSnapshot => RedrawPhase::Ready,
                    PresentationDecision::SkipOccludedWindow => RedrawPhase::Ready,
                    _ => RedrawPhase::Stopped,
                };
                let counters = if decision is ApplicationExit {
                    DesktopRunReport {
                        exit_reason: DesktopExitReason::ApplicationRequested,
                        ..counters
                    }
                } else {
                    counters
                };
                (
                    RedrawState { phase, counters, ..state },
                    RedrawAction::Frame { reset_wall_clock: reset, decision },
                )
            },
        },
        (RedrawPhase::PresentationPending, RedrawEvent::Presented { outcome }) => match outcome {
            PresentOutcome::Drawn => (
                RedrawState {
                    phase: RedrawPhase::Ready,
                    counters: DesktopRunReport {
                        drawn_frames: bumped(state.counters.drawn_frames),
                        ..state.counters
                    },
                    surface_waiting: false,
                },
                RedrawAction::Finish { reset_wall_clock: false },
            ),
            PresentOutcome::Skipped { status } => {
                let counters = DesktopRunReport {
                    skipped_frames: bumped(state.counters.skipped_frames),
                    ..state.counters
                };
                match spec_skipped_surface_action(status) {
                    SkippedSurfaceAction::RetryLater => (
                        RedrawState { phase: RedrawPhase::Ready, counters, surface_waiting: false },
                        RedrawAction::Finish { reset_wall_clock: false },
                    ),
                    SkippedSurfaceAction::WaitForWindowEvent => (
                        RedrawState { phase: RedrawPhase::Ready, counters, surface_waiting: true },
                        RedrawAction::Finish { reset_wall_clock: false },
                    ),
                    SkippedSurfaceAction::ReconfigureThenRetry => (
                        RedrawState {
                            phase: RedrawPhase::ReconfigurePending,
                            counters,
                            surface_waiting: false,
                        },
                        RedrawAction::ReconfigureSurface,
                    ),
                    SkippedSurfaceAction::Fail => (
                        RedrawState { phase: RedrawPhase::Stopped, counters, ..state },
                        RedrawAction::Stop { reason: StopReason::Presentation },
                    ),
                }
            },
            PresentOutcome::PreparationFailed => (
                stopped(state),
                RedrawAction::Stop { reason: StopReason::Preparation },
            ),
            PresentOutcome::RendererFailed { surface } => if surface == Some(SurfaceStatus::Lost) {
                (
                    RedrawState {
                        phase: RedrawPhase::RecoveryPending { reset_wall_clock_on_success: true },
                        ..state
                    },
                    RedrawAction::RecoverDevice,
                )
            } else {
                (stopped(state), RedrawAction::Stop { reason: StopReason::Presentation })
            },
        },
        (RedrawPhase::ReconfigurePending, RedrawEvent::Reconfigured { ok }) => if ok {
            (
                RedrawState { phase: RedrawPhase::Ready, ..state },
                RedrawAction::Finish { reset_wall_clock: false },
            )
        } else {
            (stopped(state), RedrawAction::Stop { reason: StopReason::SurfaceConfiguration })
        },
        (
            RedrawPhase::RecoveryPending { reset_wall_clock_on_success },
            RedrawEvent::Recovered { device, three_d },
        ) => if !device {
            (stopped(state), RedrawAction::Stop { reason: StopReason::Recovery })
        } else {
            let counters = DesktopRunReport {
                device_recoveries: bumped(state.counters.device_recoveries),
                ..state.counters
            };
            if !three_d {
                (
                    RedrawState { phase: RedrawPhase::Stopped, counters, ..state },
                    RedrawAction::Stop { reason: StopReason::Preparation },
                )
            } else {
                (
                    RedrawState { phase: RedrawPhase::Ready, counters, surface_waiting: false },
                    RedrawAction::Finish { reset_wall_clock: reset_wall_clock_on_success },
                )
            }
        },
        _ => (state, RedrawAction::Nothing),
    }
}

/// A redraw that has not started.
pub fn redraw_ready(counters: DesktopRunReport, surface_waiting: bool) -> (state: RedrawState)
    ensures
        state == (RedrawState { phase: RedrawPhase::Ready, counters, surface_waiting }),
{
    RedrawState { phase: RedrawPhase::Ready, counters, surface_waiting }
}

/// Decides the host's next action from its redraw state and what it handed
/// back.
pub fn redraw_step(state: RedrawState, event: RedrawEvent) -> (r: (RedrawState, RedrawAction))
    ensures
        r == spec_redraw_step(state, event),
{
    let mut next = state;
    match (state.phase, event) {
        (RedrawPhase::Stopped, _) => (state, RedrawAction::Nothing),
        (
            RedrawPhase::Ready,
            RedrawEvent::Requested { failed, exiting, input_failure, has_renderer },
        ) => {
            if !callback_may_run(failed, exiting) {
                (state, RedrawAction::Nothing)
            } else if let Some(failure) = input_failure {
                next.phase = RedrawPhase::Stopped;
                (next, RedrawAction::StopAfterTimings { reason: StopReason::Input { failure } })
            } else if !has_renderer {
                (state, RedrawAction::Nothing)
            } else {
                next.phase = RedrawPhase::ViewportPending;
                (next, RedrawAction::ReadViewport)
            }
        },
        (RedrawPhase::ViewportPending, RedrawEvent::ViewportRead { ok }) => {
            if ok {
                next.phase = RedrawPhase::LogicPending;
                (next, RedrawAction::AdvanceLogic)
            } else {
                next.phase = RedrawPhase::Stopped;
                (next, RedrawAction::Stop { reason: StopReason::Viewport })
            }
        },
        (
            RedrawPhase::LogicPending,
            RedrawEvent::LogicAdvanced { frame, snapshot, active, occluded },
        ) => match frame {
            None => {
                next.phase = RedrawPhase::Stopped;
                (next, RedrawAction::Stop { reason: StopReason::BeginFrame })
            },
            Some(AdvancedFrame { summary, transition }) => {
                next.counters.record_logic_frame(transition);
                let reset = transition_resets_wall_clock(&transition);
                let decision = presentation_decision(&summary, snapshot, active, occluded);
                next.phase = match decision {
                    PresentationDecision::PresentWorld => RedrawPhase::PresentationPending,
                    PresentationDecision::SkipStaleSnapshot => RedrawPhase::Ready,
                    PresentationDecision::SkipOccludedWindow => RedrawPhase::Ready,
                    _ => RedrawPhase::Stopped,
                };
                if let PresentationDecision::ApplicationExit = decision {
                    next.counters.record_application_exit();
                }
                (next, RedrawAction::Frame { reset_wall_clock: reset, decision })
            },
        },
        (RedrawPhase::PresentationPending, RedrawEvent::Presented { outcome }) => match outcome {
            PresentOutcome::Drawn => {
                next.counters.record_drawn();
                next.phase = RedrawPhase::Ready;
                next.surface_waiting = false;
                (next, RedrawAction::Finish { reset_wall_clock: false })
            },
            PresentOutcome::Skipped { status } => {
                next.counters.record_skipped();
                match skipped_surface_action(status) {
                    SkippedSurfaceAction::RetryLater => {
                        next.phase = RedrawPhase::Ready;
                        next.surface_waiting = false;
                        (next, RedrawAction::Finish { reset_wall_clock: false })
                    },
                    SkippedSurfaceAction::WaitForWindowEvent => {
                        next.phase = RedrawPhase::Ready;
                        next.surface_waiting = true;
                        (next, RedrawAction::Finish { reset_wall_clock: false })
                    },
                    SkippedSurfaceAction::ReconfigureThenRetry => {
                        next.phase = RedrawPhase::ReconfigurePending;
                        next.surface_waiting = false;
                        (next, RedrawAction::ReconfigureSurface)
                    },
                    SkippedSurfaceAction::Fail => {
                        next.phase = RedrawPhase::Stopped;
                        (next, RedrawAction::Stop { reason: StopReason::Presentation })
                    },
                }
            },
            PresentOutcome::PreparationFailed => {
                next.phase = RedrawPhase::Stopped;
                (next, RedrawAction::Stop { reason: StopReason::Preparation })
            },
            PresentOutcome::RendererFailed { surface } => match renderer_failure_action(surface) {
                RendererFailureAction::RecoverDeviceAndSurface { reset_wall_clock_on_success } => {
                    next.phase = RedrawPhase::RecoveryPending { reset_wall_clock_on_success };
                    (next, RedrawAction::RecoverDevice)
                },
                RendererFailureAction::Fail => {
                    next.phase = RedrawPhase::Stopped;
                    (next, RedrawAction::Stop { reason: StopReason::Presentation })
                },
            },
        },
        (RedrawPhase::ReconfigurePending, RedrawEvent::Reconfigured { ok }) => {
            if ok {
                next.phase = RedrawPhase::Ready;
                (next, RedrawAction::Finish { reset_wall_clock: false })
            } else {
                next.phase = RedrawPhase::Stopped;
                (next, RedrawAction::Stop { reason: StopReason::SurfaceConfiguration })
            }
        },
        (
            RedrawPhase::RecoveryPending { reset_wall_clock_on_success },
            RedrawEvent::Recovered { device, three_d },
        ) => {
            if !device {
                next.phase = RedrawPhase::Stopped;
                (next, RedrawAction::Stop { reason: StopReason::Recovery })
            } else {
                next.counters.record_recovery();
                if !three_d {
                    next.phase = RedrawPhase::Stopped;
                    (next, RedrawAction::Stop { reason: StopReason::Preparation })
                } else {
                    next.phase = RedrawPhase::Ready;
                    next.surface_waiting = false;
                    (next, RedrawAction::Finish { reset_wall_clock: reset_wall_clock_on_success })
                }
            }
        },
        _ => (state, RedrawAction::Nothing),
    }
}

/// Law: once the loop has stopped nothing more runs, and every stop is final.
pub proof fn a_stopped_loop_stays_stopped(state: RedrawState, event: RedrawEvent)
    requires
        state.phase == RedrawPhase::Stopped,
    ensures
        spec_redraw_step(state, event) == (state, RedrawAction::Nothing),
{
}

/// Law: every action that ends the loop leaves the redraw stopped, and a
/// redraw that is not stopped never takes a stopping action without
/// stopping.
pub proof fn stop_actions_stop_the_loop(state: RedrawState, event: RedrawEvent)
    ensures
        ({
            let (next, action) = spec_redraw_step(state, event);
            (action is Stop || action is StopAfterTimings) ==> next.phase == RedrawPhase::Stopped
        }),
{
}

/// Law: the presentation decision of an advanced frame alone decides whether
/// the loop goes on. A skipped frame (stale snapshot or occluded window)
/// leaves the redraw ready for the next request; a presented frame waits for
/// its presentation; only a diagnostics-only frame or an application exit
/// stops the loop.
pub proof fn only_failed_or_exiting_frames_stop_the_loop(state: RedrawState, event: RedrawEvent)
    ensures
        ({
            let (next, action) = spec_redraw_step(state, event);
            action matches RedrawAction::Frame { decision, .. } ==> {
                &&& (decision is SkipStaleSnapshot || decision is SkipOccludedWindow) ==> next.phase
                    == RedrawPhase::Ready
                &&& decision is PresentWorld ==> next.phase == RedrawPhase::PresentationPending
                &&& (decision is DiagnosticsOnly || decision is ApplicationExit) ==> next.phase
                    == RedrawPhase::Stopped
                &&& next.surface_waiting == state.surface_waiting
            }
        }),
{
}

/// Law: how a skipped presentation continues depends on the surface status.
/// Only an occluded surface waits for a window event before the next redraw;
/// a timed-out surface is retried on the next redraw, an outdated one is
/// reconfigured first, and a lost or invalid one stops the loop. Every skip
/// is counted once.
pub proof fn a_skipped_surface_waits_only_while_occluded(
    state: RedrawState,
    status: SurfaceStatus,
)
    requires
        state.phase == RedrawPhase::PresentationPending,
    ensures
        ({
            let (next, action) = spec_redraw_step(
                state,
                RedrawEvent::Presented { outcome: PresentOutcome::Skipped { status } },
            );
            &&& next.counters.skipped_frames == bumped(state.counters.skipped_frames)
            &&& next.counters.drawn_frames == state.counters.drawn_frames
            &&& (status == SurfaceStatus::Timeout || status == SurfaceStatus::Occluded) ==> {
                &&& next.phase == RedrawPhase::Ready
                &&& next.surface_waiting == (status == SurfaceStatus::Occluded)
                &&& action == RedrawAction::Finish { reset_wall_clock: false }
            }
            &&& status == SurfaceStatus::Outdated ==> {
                &&& next.phase == RedrawPhase::ReconfigurePending
                &&& !next.surface_waiting
                &&& action == RedrawAction::ReconfigureSurface
            }
            &&& (status == SurfaceStatus::Lost || status == SurfaceStatus::Validation) ==> next.phase
                == RedrawPhase::Stopped
        }),
{
}

/// Law: an advanced frame is counted once, with its committed transition,
/// and its presentation decision is the one the frame summary, snapshot,
/// active world and window visibility call for; the wall clock is reset
/// exactly after a committed or failed world transition, and an exit
/// decision records why the loop ended.
pub proof fn advanced_frames_are_counted_and_decided(
    state: RedrawState,
    summary: LogicFrameSummary,
    transition: FrameTransition,
    snapshot: Option<WorldGeneration>,
    active: WorldGeneration,
    occluded: bool,
)
    requires
        state.phase == RedrawPhase::LogicPending,
    ensures
        ({
            let (next, action) = spec_redraw_step(
                state,
                RedrawEvent::LogicAdvanced {
                    frame: Some(AdvancedFrame { summary, transition }),
                    snapshot,
                    active,
                    occluded,
                },
            );
            &&& next.counters.logic_frames == bumped(state.counters.logic_frames)
            &&& next.counters.committed_transitions == (if transition == FrameTransition::Committed {
                bumped(state.counters.committed_transitions)
            } else {
                state.counters.committed_transitions
            })
            &&& next.counters.drawn_frames == state.counters.drawn_frames
            &&& next.counters.skipped_frames == state.counters.skipped_frames
            &&& action == RedrawAction::Frame {
                reset_wall_clock: transition != FrameTransition::Unchanged,
                decision: spec_presentation_decision(summary, snapshot, active, occluded),
            }
            &&& next.counters.exit_reason == (if !summary.failed && summary.exit_requested {
                DesktopExitReason::ApplicationRequested
            } else {
                state.counters.exit_reason
            })
        }),
{
}

/// Law: a drawn frame is counted once and the next redraw may start at once;
/// a surface reconfiguration or a device recovery either resumes the loop
/// or stops it, and a resumed recovery is counted once.
pub proof fn presentation_and_recovery_resume_or_stop(state: RedrawState, event: RedrawEvent)
    ensures
        ({
            let (next, action) = spec_redraw_step(state, event);
            &&& state.phase == RedrawPhase::PresentationPending && event == (RedrawEvent::Presented {
                outcome: PresentOutcome::Drawn,
            }) ==> {
                &&& next.phase == RedrawPhase::Ready
                &&& !next.surface_waiting
                &&& next.counters.drawn_frames == bumped(state.counters.drawn_frames)
                &&& next.counters.skipped_frames == state.counters.skipped_frames
                &&& action == RedrawAction::Finish { reset_wall_clock: false }
            }
            &&& (event matches RedrawEvent::Reconfigured { ok } ==> (state.phase
                == RedrawPhase::ReconfigurePending ==> (next.phase == RedrawPhase::Ready) == ok && (
            next.phase == RedrawPhase::Stopped) == !ok))
            &&& (event matches RedrawEvent::Recovered { device, three_d } ==> state.phase is RecoveryPending ==> {
                &&& (next.phase == RedrawPhase::Ready) == (device && three_d)
                &&& (next.phase == RedrawPhase::Stopped) == !(device && three_d)
                &&& next.counters.device_recoveries == (if device {
                    bumped(state.counters.device_recoveries)
                } else {
                    state.counters.device_recoveries
                })
            })
        }),
{
}

} // verus!
