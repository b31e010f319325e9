use automate::keys::{Button, Key};
use automate::recorder::{RecordEvent, RecordStep, Recorder, MOVE_COUNTDOWN};

fn released(step: RecordStep<&'static str>) -> Option<&'static str> {
    match step {
        RecordStep::Released(p) => Some(p),
        _ => None,
    }
}

#[test]
fn a_release_completes_the_first_matching_press() {
    let mut r = Recorder::new();
    let out = r.handle(RecordEvent::KeyPress(Key::KeyA, "a1"), false, true, 20, false);
    assert!(matches!(out.step, RecordStep::PressStored));
    r.handle(RecordEvent::KeyPress(Key::KeyB, "b1"), false, true, 20, false);
    r.handle(RecordEvent::KeyPress(Key::KeyA, "a2"), false, true, 20, false);
    let out = r.handle(RecordEvent::KeyRelease(Key::KeyA), false, true, 20, false);
    assert_eq!(released(out.step), Some("a1"));
    let out = r.handle(RecordEvent::KeyRelease(Key::KeyA), false, true, 20, false);
    assert_eq!(released(out.step), Some("a2"));
    let out = r.handle(RecordEvent::KeyRelease(Key::KeyA), false, true, 20, false);
    assert!(matches!(out.step, RecordStep::Unmatched));
}

#[test]
fn button_presses_pair_with_their_releases() {
    let mut r = Recorder::new();
    r.handle(RecordEvent::ButtonPress(Button::Left, "l"), false, true, 20, false);
    r.handle(RecordEvent::ButtonPress(Button::Right, "r"), false, true, 20, false);
    let out = r.handle(RecordEvent::ButtonRelease(Button::Right), false, true, 20, false);
    assert_eq!(released(out.step), Some("r"));
    let out = r.handle(RecordEvent::ButtonRelease(Button::Middle), false, true, 20, false);
    assert!(matches!(out.step, RecordStep::Unmatched));
}

#[test]
fn nothing_is_recorded_while_not_recording() {
    let mut r = Recorder::new();
    let out = r.handle(RecordEvent::KeyPress(Key::KeyA, "a"), false, false, 20, false);
    assert!(matches!(out.step, RecordStep::Nothing));
    assert!(!out.recording);
    let out = r.handle(RecordEvent::KeyRelease(Key::KeyA), false, true, 20, false);
    assert!(matches!(out.step, RecordStep::Unmatched));
}

#[test]
fn f8_toggles_recording_and_starting_forgets_pending_keys() {
    let mut r = Recorder::new();
    r.handle(RecordEvent::KeyPress(Key::KeyA, "a"), false, true, 20, false);
    let out = r.handle(RecordEvent::KeyRelease(Key::F8), false, true, 20, false);
    assert!(!out.recording);
    assert!(matches!(out.step, RecordStep::Unmatched));
    let out = r.handle(RecordEvent::KeyRelease(Key::F8), false, false, 20, false);
    assert!(out.recording);
    assert!(out.reset_position);
    assert_eq!(r.move_countdown(), MOVE_COUNTDOWN);
    let out = r.handle(RecordEvent::KeyRelease(Key::KeyA), false, true, 20, false);
    assert!(matches!(out.step, RecordStep::Unmatched));
}

#[test]
fn stopping_with_f8_records_the_f8_press() {
    let mut r = Recorder::new();
    r.handle(RecordEvent::KeyPress(Key::F8, "f8"), false, true, 20, false);
    let out = r.handle(RecordEvent::KeyRelease(Key::F8), false, true, 20, false);
    assert!(!out.recording);
    assert_eq!(released(out.step), Some("f8"));
}

#[test]
fn escape_stops_playback() {
    let mut r: Recorder<&'static str> = Recorder::new();
    let out = r.handle(RecordEvent::KeyRelease(Key::Escape), false, false, 20, false);
    assert!(out.stop_playback);
    assert!(matches!(out.step, RecordStep::Nothing));
}

#[test]
fn f9_adds_a_mouse_move_while_recording() {
    let mut r = Recorder::new();
    r.handle(RecordEvent::KeyPress(Key::F9, "f9"), false, true, 20, false);
    let out = r.handle(RecordEvent::KeyRelease(Key::F9), false, true, 20, false);
    assert!(matches!(out.step, RecordStep::ManualMove));
    assert!(!out.stop_playback);
    assert!(out.recording);
    let out = r.handle(RecordEvent::KeyRelease(Key::F9), false, false, 20, false);
    assert!(matches!(out.step, RecordStep::Nothing));
    let out = r.handle(RecordEvent::KeyRelease(Key::F9), true, true, 20, false);
    assert!(matches!(out.step, RecordStep::Nothing));
}

#[test]
fn resolution_zero_records_no_mouse_moves() {
    let mut r: Recorder<&'static str> = Recorder::new();
    for _ in 0..40 {
        let out = r.handle(RecordEvent::MouseMove, false, true, 0, true);
        assert!(matches!(out.step, RecordStep::Nothing));
    }
    assert_eq!(r.move_countdown(), MOVE_COUNTDOWN);
}

#[test]
fn one_mouse_move_in_every_resolution_is_recorded() {
    let mut r: Recorder<&'static str> = Recorder::new();
    for _ in 0..19 {
        let out = r.handle(RecordEvent::MouseMove, false, true, 3, true);
        assert!(matches!(out.step, RecordStep::Nothing));
    }
    let out = r.handle(RecordEvent::MouseMove, false, true, 3, true);
    assert!(matches!(out.step, RecordStep::MouseMoved));
    assert_eq!(r.move_countdown(), 3);
    let out = r.handle(RecordEvent::MouseMove, false, true, 3, false);
    assert!(matches!(out.step, RecordStep::Nothing));
    r.handle(RecordEvent::MouseMove, false, true, 3, true);
    let out = r.handle(RecordEvent::MouseMove, false, true, 3, true);
    assert!(matches!(out.step, RecordStep::MouseMoved));
}

#[test]
fn a_move_to_the_same_place_is_never_recorded() {
    let mut r: Recorder<&'static str> = Recorder::new();
    for _ in 0..30 {
        let out = r.handle(RecordEvent::MouseMove, false, true, 1, false);
        assert!(matches!(out.step, RecordStep::Nothing));
    }
    assert_eq!(r.move_countdown(), MOVE_COUNTDOWN - 30);
}

#[test]
fn wheel_events_with_a_delta_are_recorded() {
    let mut r: Recorder<&'static str> = Recorder::new();
    let out = r.handle(RecordEvent::Wheel(0, 0), false, true, 20, false);
    assert!(matches!(out.step, RecordStep::Nothing));
    let out = r.handle(RecordEvent::Wheel(0, -1), false, true, 20, false);
    assert!(matches!(out.step, RecordStep::Scrolled));
}

#[test]
fn calibration_only_samples_mouse_moves() {
    let mut r = Recorder::new();
    let out = r.handle(RecordEvent::MouseMove, true, true, 20, true);
    assert!(matches!(out.step, RecordStep::CalibrationSample));
    let out = r.handle(RecordEvent::KeyRelease(Key::F8), true, true, 20, false);
    assert!(out.recording);
    assert!(matches!(out.step, RecordStep::Nothing));
    let out = r.handle(RecordEvent::KeyPress(Key::KeyA, "a"), true, true, 20, false);
    assert!(matches!(out.step, RecordStep::Nothing));
}
