use automate::keyframe::{Keyframe, KeyframeType};
use automate::keys::Key;
use automate::recorder::{RecordEvent, RecordStep, Recorder};
use automate::sequencer::Sequencer;

type Editor = Sequencer<f32, (f32, f32)>;

fn loaded(uids: &[u128]) -> Editor {
    let mut s = Editor::new();
    s.load_from_state(
        uids.iter()
            .map(|u| Keyframe {
                timestamp: 0.0,
                duration: 1.0,
                keyframe_type: KeyframeType::KeyBtn(Key::Space),
                kind: 0,
                uid: *u,
            })
            .collect(),
    );
    s
}

#[test]
fn a_second_ctrl_click_restores_the_selection() {
    let mut s = loaded(&[1, 2, 3, 4]);
    s.click(4, true);
    s.click(1, true);
    let before = s.selected_keyframes().clone();
    s.click(3, true);
    assert_eq!(s.selected_keyframes(), &vec![1, 3, 4]);
    s.click(3, true);
    assert_eq!(s.selected_keyframes(), &before);
    s.click(1, true);
    assert_eq!(s.selected_keyframes(), &vec![4]);
    s.click(1, true);
    assert_eq!(s.selected_keyframes(), &before);
}

#[test]
fn cut_splits_the_keyframes_in_two() {
    let mut s = loaded(&[5, 6, 7, 8, 9]);
    s.click(6, true);
    s.click(9, true);
    s.click(7, true);
    s.cut();
    let mut all: Vec<u128> = s.keyframes().iter().map(|k| k.uid).collect();
    let cut: Vec<u128> = s.clip_board().iter().map(|k| k.uid).collect();
    assert_eq!(all, vec![5, 8]);
    assert_eq!(cut, vec![9, 7, 6]);
    all.extend(cut);
    all.sort();
    assert_eq!(all, vec![5, 6, 7, 8, 9]);
}

#[test]
fn a_release_gives_back_its_press() {
    let mut r = Recorder::new();
    r.handle(RecordEvent::KeyPress(Key::KeyX, 7u32), false, true, 20, false);
    r.handle(RecordEvent::KeyPress(Key::KeyY, 8u32), false, true, 20, false);
    let out = r.handle(RecordEvent::KeyRelease(Key::KeyY), false, true, 20, false);
    assert!(matches!(out.step, RecordStep::Released(8)));
    let out = r.handle(RecordEvent::KeyRelease(Key::KeyX), false, true, 20, false);
    assert!(matches!(out.step, RecordStep::Released(7)));
}

#[test]
fn every_edit_keeps_one_state_per_keyframe() {
    let mut s = loaded(&[1, 2, 3]);
    s.click(2, false);
    s.copy();
    s.paste();
    assert_eq!(s.keyframe_state().len(), s.keyframes().len());
    s.clear_selection();
    s.select_all();
    s.cut_from_menu();
    assert_eq!(s.keyframe_state().len(), s.keyframes().len());
    assert!(s.keyframes().is_empty());
}
