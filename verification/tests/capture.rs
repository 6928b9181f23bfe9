use std::cell::RefCell;

use sim_logic::capture::{apply_backend, CaptureState, CursorGrab, PointerCaptureStatus};

struct Backend {
    locked: bool,
    confined: bool,
    release: bool,
    calls: RefCell<Vec<String>>,
}

impl Backend {
    fn grab(&self, mode: CursorGrab) -> bool {
        let name = match mode {
            CursorGrab::Free => "None",
            CursorGrab::Locked => "Locked",
            CursorGrab::Confined => "Confined",
        };
        self.calls.borrow_mut().push(name.to_owned());
        match mode {
            CursorGrab::Free => self.release,
            CursorGrab::Locked => self.locked,
            CursorGrab::Confined => self.confined,
        }
    }
    fn visible(&self, visible: bool) {
        self.calls.borrow_mut().push(format!("visible:{visible}"));
    }
    fn apply(&self, requested: bool) -> PointerCaptureStatus {
        apply_backend(|mode| self.grab(mode), |visible| self.visible(visible), requested)
    }
}

fn backend(locked: bool, confined: bool) -> Backend {
    Backend {
        locked,
        confined,
        release: true,
        calls: RefCell::default(),
    }
}

#[test]
fn lock_precedes_confine_and_only_success_hides_cursor() {
    let locked = backend(true, true);
    assert_eq!(locked.apply(true), PointerCaptureStatus::Locked);
    assert_eq!(*locked.calls.borrow(), ["Locked", "visible:false"]);
    let confined = backend(false, true);
    assert_eq!(confined.apply(true), PointerCaptureStatus::Confined);
    assert_eq!(
        *confined.calls.borrow(),
        ["Locked", "Confined", "visible:false"]
    );
    let rejected = backend(false, false);
    assert_eq!(rejected.apply(true), PointerCaptureStatus::Unavailable);
    assert_eq!(
        *rejected.calls.borrow(),
        ["Locked", "Confined", "None", "visible:true"]
    );
}

#[test]
fn even_failed_release_restores_visibility() {
    let mut backend = backend(true, true);
    backend.release = false;
    assert_eq!(backend.apply(false), PointerCaptureStatus::Unavailable);
    assert_eq!(*backend.calls.borrow(), ["None", "visible:true"]);
}

#[test]
fn successful_release_shows_the_cursor() {
    let backend = backend(true, true);
    assert_eq!(backend.apply(false), PointerCaptureStatus::Released);
    assert_eq!(*backend.calls.borrow(), ["None", "visible:true"]);
}

#[test]
fn lost_focus_disables_raw_motion_until_a_new_capture() {
    let mut capture = CaptureState::new();
    assert!(!capture.accepts_motion());
    capture.set_focused(true);
    capture.record(PointerCaptureStatus::Locked);
    assert!(capture.accepts_motion());
    capture.set_focused(false);
    capture.release();
    assert!(!capture.accepts_motion());
    capture.set_focused(true);
    assert!(!capture.accepts_motion());
    capture.record(PointerCaptureStatus::Unavailable);
    assert!(!capture.accepts_motion());
    capture.record(PointerCaptureStatus::Confined);
    assert!(capture.accepts_motion());
}

#[test]
fn lost_focus_disables_raw_motion_and_never_reacquires_on_regain() {
    let mut capture = CaptureState::new();
    capture.set_focused(true);
    capture.record(PointerCaptureStatus::Locked);
    assert!(capture.accepts_motion());
    capture.set_focused(false);
    capture.release();
    assert!(!capture.accepts_motion());
    capture.set_focused(true);
    assert!(!capture.accepts_motion());
}
