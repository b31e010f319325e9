use automate::keyframe::KeyframeType;
use automate::keys::{Button, Key};
use automate::playback::{handle_playing_keyframe, playback_finished, PlaybackAction};
use automate::shortcuts::{shortcut_commands, Command, KeysPressed};

type Kt = KeyframeType<f32, (f32, f32)>;

#[test]
fn keys_and_buttons_press_then_release() {
    let k: Kt = KeyframeType::KeyBtn(Key::KeyQ);
    assert!(matches!(handle_playing_keyframe(&k, true), PlaybackAction::PressKey(Key::KeyQ)));
    assert!(matches!(handle_playing_keyframe(&k, false), PlaybackAction::ReleaseKey(Key::KeyQ)));
    let b: Kt = KeyframeType::MouseBtn(Button::Right);
    assert!(matches!(handle_playing_keyframe(&b, true), PlaybackAction::PressButton(Button::Right)));
    assert!(matches!(handle_playing_keyframe(&b, false), PlaybackAction::ReleaseButton(Button::Right)));
}

#[test]
fn moves_scrolls_and_waits_act_at_the_start() {
    let m: Kt = KeyframeType::MouseMove((10.0, 20.0));
    assert!(matches!(handle_playing_keyframe(&m, true), PlaybackAction::MoveMouse((x, y)) if x == 10.0 && y == 20.0));
    assert!(matches!(handle_playing_keyframe(&m, false), PlaybackAction::Nothing));
    let s: Kt = KeyframeType::Scroll((0.0, -1.0));
    assert!(matches!(handle_playing_keyframe(&s, true), PlaybackAction::Scroll(_)));
    assert!(matches!(handle_playing_keyframe(&s, false), PlaybackAction::Nothing));
    let w: Kt = KeyframeType::Wait(0.5);
    assert!(matches!(handle_playing_keyframe(&w, true), PlaybackAction::Sleep(t) if t == 0.5));
    assert!(matches!(handle_playing_keyframe(&w, false), PlaybackAction::Nothing));
    let l: Kt = KeyframeType::Loop(3, 1);
    assert!(matches!(handle_playing_keyframe(&l, true), PlaybackAction::Nothing));
}

#[test]
fn repeats_count_down_then_playback_stops() {
    assert_eq!(playback_finished(3), (2, true));
    assert_eq!(playback_finished(2), (1, true));
    assert_eq!(playback_finished(1), (1, false));
    assert_eq!(playback_finished(0), (0, false));
}

fn none() -> KeysPressed {
    KeysPressed {
        s: false,
        n: false,
        o: false,
        z: false,
        y: false,
        comma: false,
        arrow_right: false,
        arrow_left: false,
        space: false,
        f8_released: false,
    }
}

#[test]
fn ctrl_shortcuts_pick_one_file_command_then_navigate() {
    let p = KeysPressed { s: true, n: true, arrow_right: true, ..none() };
    assert_eq!(shortcut_commands(true, false, &p), vec![Command::SaveFile, Command::NextKeyframe(false)]);
    let p = KeysPressed { comma: true, arrow_left: true, ..none() };
    assert_eq!(shortcut_commands(true, true, &p), vec![Command::ToggleSettings, Command::PreviousKeyframe(true)]);
    assert_eq!(shortcut_commands(true, false, &none()), vec![]);
}

#[test]
fn plain_shortcuts_pick_one_playback_command() {
    let p = KeysPressed { arrow_right: true, space: true, ..none() };
    assert_eq!(shortcut_commands(false, false, &p), vec![Command::StepTime]);
    let p = KeysPressed { space: true, s: true, ..none() };
    assert_eq!(shortcut_commands(false, false, &p), vec![Command::TogglePlay]);
    let p = KeysPressed { f8_released: true, ..none() };
    assert_eq!(shortcut_commands(false, true, &p), vec![Command::ToggleRecording]);
}
