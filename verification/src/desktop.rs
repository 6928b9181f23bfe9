//! Decisions the one-window desktop host takes between platform callbacks:
//! whether a callback may run, what a finished logical frame presents, how
//! surface and renderer failures are answered, and which titles a window
//! may carry.

use vstd::prelude::*;
use crate::identity::WorldGeneration;
use vstd::string::StringSliceAdditionalSpecFns;

verus! {

/// Largest accepted window title, in UTF-8 bytes.
pub const MAX_TITLE_BYTES: usize = 256;

/// Successful reason the desktop event loop ended.
#[derive(Debug, Clone, Copy, PartialEq, Eq, Structural)]
pub enum DesktopExitReason {
    /// The platform window was closed or destroyed.
    WindowClosed,
    /// A committed exit request ended the loop after its logical frame.
    ApplicationRequested,
}

impl Default for DesktopExitReason {
    fn default() -> (reason: Self)
        ensures
            reason == DesktopExitReason::WindowClosed,
    {
        DesktopExitReason::WindowClosed
    }
}

/// Invalid desktop configuration.
#[derive(Debug, Clone, Copy, PartialEq, Eq, Structural)]
pub enum DesktopConfigError {
    /// The title contains no non-whitespace character.
    EmptyTitle,
    /// The UTF-8 title exceeds the finite adapter limit.
    TitleTooLong {
        /// Maximum accepted UTF-8 byte count.
        limit: usize,
    },
    /// Logical dimensions must be finite and strictly positive; the rejected
    /// values are kept as their IEEE-754 bit patterns.
    InvalidLogicalSize {
        /// Bits of the rejected logical width.
        width_bits: u64,
        /// Bits of the rejected logical height.
        height_bits: u64,
    },
}

/// What the host does with a logical frame that advanced.
#[derive(Debug, Clone, Copy, PartialEq, Eq, Structural)]
pub enum PresentationDecision {
    /// The frame failed: present a diagnostic frame and stop.
    DiagnosticsOnly,
    /// The application asked to exit: record it and stop without presenting.
    ApplicationExit,
    /// The published snapshot does not belong to the active world.
    SkipStaleSnapshot,
    /// The window cannot show anything right now.
    SkipOccludedWindow,
    /// Present the extracted world.
    PresentWorld,
}

/// How the host answers a surface that could not be acquired.
#[derive(Debug, Clone, Copy, PartialEq, Eq, Structural)]
pub enum SkippedSurfaceAction {
    /// Try again on a later frame.
    RetryLater,
    /// Wait for the window to become visible again.
    WaitForWindowEvent,
    /// Reconfigure the surface, then retry.
    ReconfigureThenRetry,
    /// Stop the loop.
    Fail,
}

/// How the host answers a renderer failure.
#[derive(Debug, Clone, Copy, PartialEq, Eq, Structural)]
pub enum RendererFailureAction {
    /// Rebuild device and surface.
    RecoverDeviceAndSurface {
        /// Whether a successful recovery restarts the frame clock.
        reset_wall_clock_on_success: bool,
    },
    /// Stop the loop.
    Fail,
}

/// Outcome of acquiring a presentation surface, as the renderer reports it.
#[derive(Debug, Clone, Copy, PartialEq, Eq, Structural)]
pub enum SurfaceStatus {
    /// Acquiring the next frame timed out.
    Timeout,
    /// The surface is occluded or minimized.
    Occluded,
    /// The surface configuration is stale.
    Outdated,
    /// The surface was lost.
    Lost,
    /// A validation error occurred while acquiring the frame.
    Validation,
}

/// The kind of world transition a logical frame carried.
#[derive(Debug, Clone, Copy, PartialEq, Eq, Structural)]
pub enum FrameTransition {
    /// No transition was requested.
    Unchanged,
    /// A prepared candidate world replaced the active one.
    Committed,
    /// Preparing a candidate world failed; the active world stayed.
    PreparationFailed,
}

/// What presentation needs to know of one advanced logical frame.
#[derive(Debug, Clone, Copy, PartialEq, Eq, Structural)]
pub struct LogicFrameSummary {
    /// The frame recorded a failure.
    pub failed: bool,
    /// The frame committed an exit request.
    pub exit_requested: bool,
    /// The world generation whose snapshot the frame extracted, if any.
    pub extracted_generation: Option<WorldGeneration>,
}

/// Every host callback shares this terminal guard: after a fatal failure or
/// once the loop is exiting, nothing more runs.
pub fn callback_may_run(failed: bool, exiting: bool) -> (may_run: bool)
    ensures
        may_run == (!failed && !exiting),
{
    !failed && !exiting
}

/// A snapshot is fresh when both the frame report and the published snapshot
/// name the active generation.
pub open spec fn spec_snapshot_is_fresh(
    report: Option<WorldGeneration>,
    snapshot: Option<WorldGeneration>,
    active: WorldGeneration,
) -> bool {
    report == Some(active) && snapshot == Some(active)
}

/// Whether the report's generation and the published snapshot's generation
/// are both the active generation.
pub fn snapshot_is_fresh(
    report: Option<WorldGeneration>,
    snapshot: Option<WorldGeneration>,
    active: WorldGeneration,
) -> (fresh: bool)
    ensures
        fresh == spec_snapshot_is_fresh(report, snapshot, active),
{
    match (report, snapshot) {
        (Some(report), Some(snapshot)) => report == active && snapshot == active,
        _ => false,
    }
}

/// The presentation decision, checked in order: failure, exit, staleness,
/// occlusion.
pub open spec fn spec_presentation_decision(
    report: LogicFrameSummary,
    snapshot: Option<WorldGeneration>,
    active: WorldGeneration,
    window_occluded: bool,
) -> PresentationDecision {
    if report.failed {
        PresentationDecision::DiagnosticsOnly
    } else if report.exit_requested {
        PresentationDecision::ApplicationExit
    } else if !spec_snapshot_is_fresh(report.extracted_generation, snapshot, active) {
        PresentationDecision::SkipStaleSnapshot
    } else if window_occluded {
        PresentationDecision::SkipOccludedWindow
    } else {
        PresentationDecision::PresentWorld
    }
}

/// Chooses what an advanced logical frame presents.
pub fn presentation_decision(
    report: &LogicFrameSummary,
    snapshot: Option<WorldGeneration>,
    active: WorldGeneration,
    window_occluded: bool,
) -> (decision: PresentationDecision)
    ensures
        decision == spec_presentation_decision(*report, snapshot, active, window_occluded),
{
    if report.failed {
        return PresentationDecision::DiagnosticsOnly;
    }
    if report.exit_requested {
        return PresentationDecision::ApplicationExit;
    }
    if !snapshot_is_fresh(report.extracted_generation, snapshot, active) {
        return PresentationDecision::SkipStaleSnapshot;
    }
    if window_occluded {
        return PresentationDecision::SkipOccludedWindow;
    }
    PresentationDecision::PresentWorld
}

/// Retry policy for a surface that could not be acquired.
pub open spec fn spec_skipped_surface_action(status: SurfaceStatus) -> SkippedSurfaceAction {
    match status {
        SurfaceStatus::Timeout => SkippedSurfaceAction::RetryLater,
        SurfaceStatus::Occluded => SkippedSurfaceAction::WaitForWindowEvent,
        SurfaceStatus::Outdated => SkippedSurfaceAction::ReconfigureThenRetry,
        SurfaceStatus::Lost | SurfaceStatus::Validation => SkippedSurfaceAction::Fail,
    }
}

/// Chooses how to answer a skipped surface.
pub fn skipped_surface_action(status: SurfaceStatus) -> (action: SkippedSurfaceAction)
    ensures
        action == spec_skipped_surface_action(status),
{
    match status {
        SurfaceStatus::Timeout => SkippedSurfaceAction::RetryLater,
        SurfaceStatus::Occluded => SkippedSurfaceAction::WaitForWindowEvent,
        SurfaceStatus::Outdated => SkippedSurfaceAction::ReconfigureThenRetry,
        SurfaceStatus::Lost | SurfaceStatus::Validation => SkippedSurfaceAction::Fail,
    }
}

/// Chooses how to answer a renderer failure. `surface` is the surface status
/// the failure carries when it is a surface-acquisition failure of a frame,
/// and `None` for every other failure. Only a lost surface is recovered.
pub fn renderer_failure_action(surface: Option<SurfaceStatus>) -> (action: RendererFailureAction)
    ensures
        action == (if surface == Some(SurfaceStatus::Lost) {
            RendererFailureAction::RecoverDeviceAndSurface { reset_wall_clock_on_success: true }
        } else {
            RendererFailureAction::Fail
        }),
{
    match surface {
        Some(SurfaceStatus::Lost) => RendererFailureAction::RecoverDeviceAndSurface {
            reset_wall_clock_on_success: true,
        },
        _ => RendererFailureAction::Fail,
    }
}

/// Candidate preparation is synchronous host work, so a committed or failed
/// preparation restarts the frame clock.
pub fn transition_resets_wall_clock(transition: &FrameTransition) -> (resets: bool)
    ensures
        resets == (*transition is Committed || *transition is PreparationFailed),
{
    match transition {
        FrameTransition::Committed | FrameTransition::PreparationFailed => true,
        FrameTransition::Unchanged => false,
    }
}

/// A surface with no area shows nothing.
pub fn extent_is_occluded(width: u32, height: u32) -> (occluded: bool)
    ensures
        occluded == (width == 0 || height == 0),
{
    width == 0 || height == 0
}

/// The characters Rust and Unicode count as white space (the `White_Space`
/// property), which trimming removes.
pub open spec fn is_white_space(c: char) -> bool {
    ||| '\u{9}' <= c <= '\u{d}'
    ||| c == ' '
    ||| c == '\u{85}'
    ||| c == '\u{a0}'
    ||| c == '\u{1680}'
    ||| '\u{2000}' <= c <= '\u{200a}'
    ||| c == '\u{2028}'
    ||| c == '\u{2029}'
    ||| c == '\u{202f}'
    ||| c == '\u{205f}'
    ||| c == '\u{3000}'
}

/// A title is blank when trimming white space leaves nothing.
pub open spec fn is_blank(title: Seq<char>) -> bool {
    forall|i: int| 0 <= i < title.len() ==> is_white_space(#[trigger] title[i])
}

/// Whether `c` is white space.
pub fn char_is_white_space(c: char) -> (white: bool)
    ensures
        white == is_white_space(c),
{
    ('\u{9}' <= c && c <= '\u{d}') || c == ' ' || c == '\u{85}' || c == '\u{a0}' || c
        == '\u{1680}' || ('\u{2000}' <= c && c <= '\u{200a}') || c == '\u{2028}' || c
        == '\u{2029}' || c == '\u{202f}' || c == '\u{205f}' || c == '\u{3000}'
}

/// Whether the title holds no character but white space.
pub fn title_is_blank(title: &str) -> (blank: bool)
    ensures
        blank == is_blank(title@),
{
    broadcast use vstd::string::axiom_spec_iter;

    let mut blank = true;
    for c in it: title.chars()
        invariant
            it.seq() == title@,
            blank == (forall|i: int| 0 <= i < it.index() ==> is_white_space(#[trigger] title@[i])),
    {
        if !char_is_white_space(c) {
            blank = false;
        }
    }
    blank
}

/// The result of validating a window title.
pub open spec fn spec_validate_title(title: &str) -> Result<(), DesktopConfigError> {
    if is_blank(title@) {
        Err(DesktopConfigError::EmptyTitle)
    } else if title.spec_bytes().len() > MAX_TITLE_BYTES {
        Err(DesktopConfigError::TitleTooLong { limit: MAX_TITLE_BYTES })
    } else {
        Ok(())
    }
}

/// Accepts a title that holds a visible character and fits the byte limit.
pub fn validate_title(title: &str) -> (result: Result<(), DesktopConfigError>)
    ensures
        result == spec_validate_title(title),
{
    if title_is_blank(title) {
        return Err(DesktopConfigError::EmptyTitle);
    }
    if title.as_bytes().len() > MAX_TITLE_BYTES {
        return Err(DesktopConfigError::TitleTooLong { limit: MAX_TITLE_BYTES });
    }
    Ok(())
}

/// Frame counts kept across a desktop run and retained after it ends;
/// every count saturates.
#[derive(Debug, Clone, Copy, PartialEq, Eq, Structural)]
pub struct DesktopRunReport {
    /// Logical frames that advanced.
    pub logic_frames: u64,
    /// Frames drawn to the surface.
    pub drawn_frames: u64,
    /// Frames whose surface could not be acquired.
    pub skipped_frames: u64,
    /// Committed world transitions.
    pub committed_transitions: u64,
    /// Successful device recoveries.
    pub device_recoveries: u64,
    /// Why the loop ended, once it has.
    pub exit_reason: DesktopExitReason,
}

/// Saturating increment of a count.
pub open spec fn bumped(count: u64) -> u64 {
    if count == u64::MAX { count } else { (count + 1) as u64 }
}

impl Default for DesktopRunReport {
    fn default() -> (counters: Self)
        ensures
            counters == (DesktopRunReport {
                logic_frames: 0,
                drawn_frames: 0,
                skipped_frames: 0,
                committed_transitions: 0,
                device_recoveries: 0,
                exit_reason: DesktopExitReason::WindowClosed,
            }),
    {
        DesktopRunReport {
            logic_frames: 0,
            drawn_frames: 0,
            skipped_frames: 0,
            committed_transitions: 0,
            device_recoveries: 0,
            exit_reason: DesktopExitReason::WindowClosed,
        }
    }
}

impl DesktopRunReport {
    /// Returns the logical frames that advanced.
    pub fn logic_frames(&self) -> (r: u64)
        ensures
            r == self.logic_frames,
    {
        self.logic_frames
    }

    /// Returns the frames drawn to the surface.
    pub fn drawn_frames(&self) -> (r: u64)
        ensures
            r == self.drawn_frames,
    {
        self.drawn_frames
    }

    /// Returns the frames whose surface could not be acquired.
    pub fn skipped_frames(&self) -> (r: u64)
        ensures
            r == self.skipped_frames,
    {
        self.skipped_frames
    }

    /// Returns the committed world transitions.
    pub fn committed_transitions(&self) -> (r: u64)
        ensures
            r == self.committed_transitions,
    {
        self.committed_transitions
    }

    /// Returns the successful device recoveries.
    pub fn device_recoveries(&self) -> (r: u64)
        ensures
            r == self.device_recoveries,
    {
        self.device_recoveries
    }

    /// Returns why the loop ended.
    pub fn exit_reason(&self) -> (r: DesktopExitReason)
        ensures
            r == self.exit_reason,
    {
        self.exit_reason
    }

    /// Counts an advanced logical frame and a committed transition it carried.
    pub fn record_logic_frame(&mut self, transition: FrameTransition)
        ensures
            *final(self) == (DesktopRunReport {
                logic_frames: bumped(old(self).logic_frames),
                committed_transitions: if transition is Committed {
                    bumped(old(self).committed_transitions)
                } else {
                    old(self).committed_transitions
                },
                ..*old(self)
            }),
    {
        self.logic_frames = self.logic_frames.saturating_add(1);
        if let FrameTransition::Committed = transition {
            self.committed_transitions = self.committed_transitions.saturating_add(1);
        }
    }

    /// Counts a frame drawn to the surface.
    pub fn record_drawn(&mut self)
        ensures
            *final(self) == (DesktopRunReport {
                drawn_frames: bumped(old(self).drawn_frames),
                ..*old(self)
            }),
    {
        self.drawn_frames = self.drawn_frames.saturating_add(1);
    }

    /// Counts a frame whose surface could not be acquired.
    pub fn record_skipped(&mut self)
        ensures
            *final(self) == (DesktopRunReport {
                skipped_frames: bumped(old(self).skipped_frames),
                ..*old(self)
            }),
    {
        self.skipped_frames = self.skipped_frames.saturating_add(1);
    }

    /// Counts a successful device recovery; the count is the new device
    /// generation.
    pub fn record_recovery(&mut self) -> (generation: u64)
        ensures
            *final(self) == (DesktopRunReport {
                device_recoveries: bumped(old(self).device_recoveries),
                ..*old(self)
            }),
            generation == final(self).device_recoveries,
    {
        self.device_recoveries = self.device_recoveries.saturating_add(1);
        self.device_recoveries
    }

    /// Records that a committed exit request ended the loop; nothing is
    /// drawn or skipped for that frame.
    pub fn record_application_exit(&mut self)
        ensures
            *final(self) == (DesktopRunReport {
                exit_reason: DesktopExitReason::ApplicationRequested,
                ..*old(self)
            }),
    {
        self.exit_reason = DesktopExitReason::ApplicationRequested;
    }
}

/// Whether the host waits for a window event after a skipped surface, or the
/// skip is fatal (`None`).
pub fn surface_waiting_after(action: SkippedSurfaceAction) -> (waiting: Option<bool>)
    ensures
        waiting == (match action {
            SkippedSurfaceAction::RetryLater => Some(false),
            SkippedSurfaceAction::WaitForWindowEvent => Some(true),
            SkippedSurfaceAction::ReconfigureThenRetry => Some(false),
            SkippedSurfaceAction::Fail => None::<bool>,
        }),
{
    match action {
        SkippedSurfaceAction::RetryLater => Some(false),
        SkippedSurfaceAction::WaitForWindowEvent => Some(true),
        SkippedSurfaceAction::ReconfigureThenRetry => Some(false),
        SkippedSurfaceAction::Fail => None,
    }
}


/// The order of the screen pass: present only when the screen scene has
/// commands, and then always after the world pass (order 0).
pub fn screen_pass_order(command_count: usize) -> (order: Option<i32>)
    ensures
        order == (if command_count == 0 { None::<i32> } else { Some(1i32) }),
{
    if command_count == 0 {
        None
    } else {
        Some(1)
    }
}

} // verus!
