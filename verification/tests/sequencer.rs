use automate::keyframe::{Keyframe, KeyframeType};
use automate::keys::{Button, Key};
use automate::sequencer::Sequencer;

type Kf = Keyframe<f32, (f32, f32)>;
type Editor = Sequencer<f32, (f32, f32)>;

fn key(uid: u128, t: f32, k: Key) -> Kf {
    Keyframe { timestamp: t, duration: 0.5, keyframe_type: KeyframeType::KeyBtn(k), kind: 0, uid }
}

fn loaded(uids: &[u128]) -> Editor {
    let mut s = Editor::new();
    let kfs: Vec<Kf> = uids.iter().enumerate().map(|(i, u)| key(*u, i as f32, Key::KeyA)).collect();
    s.load_from_state(kfs);
    s
}

fn uids(s: &Editor) -> Vec<u128> {
    s.keyframes().iter().map(|k| k.uid).collect()
}

fn clip_uids(s: &Editor) -> Vec<u128> {
    s.clip_board().iter().map(|k| k.uid).collect()
}

#[test]
fn loading_makes_every_keyframe_idle() {
    let s = loaded(&[5, 3, 9]);
    assert_eq!(uids(&s), vec![5, 3, 9]);
    assert_eq!(s.keyframe_state(), &vec![0, 0, 0]);
    assert!(s.selected_keyframes().is_empty());
    assert!(!s.changed());
}

#[test]
fn plain_click_selects_only_that_keyframe() {
    let mut s = loaded(&[1, 2, 3]);
    s.click(2, false);
    assert_eq!(s.selected_keyframes(), &vec![2]);
    s.click(3, false);
    assert_eq!(s.selected_keyframes(), &vec![3]);
}

#[test]
fn plain_click_on_a_selected_keyframe_keeps_only_it() {
    let mut s = loaded(&[1, 2, 3]);
    s.click(2, false);
    s.click(2, false);
    assert_eq!(s.selected_keyframes(), &vec![2]);
}

#[test]
fn plain_click_on_one_of_several_selected_keeps_only_it() {
    let mut s = loaded(&[1, 2, 3]);
    s.click(1, true);
    s.click(2, true);
    s.click(3, true);
    s.click(2, false);
    assert_eq!(s.selected_keyframes(), &vec![2]);
}

#[test]
fn ctrl_click_keeps_the_selection_sorted_and_toggles() {
    let mut s = loaded(&[1, 2, 3]);
    s.click(3, true);
    s.click(1, true);
    s.click(2, true);
    assert_eq!(s.selected_keyframes(), &vec![1, 2, 3]);
    s.click(2, true);
    assert_eq!(s.selected_keyframes(), &vec![1, 3]);
}

#[test]
fn drag_start_selects_an_unselected_keyframe() {
    let mut s = loaded(&[1, 2, 3]);
    s.click(1, false);
    s.drag_start(1, false);
    assert_eq!(s.selected_keyframes(), &vec![1]);
    s.drag_start(3, false);
    assert_eq!(s.selected_keyframes(), &vec![3]);
    s.drag_start(2, true);
    assert_eq!(s.selected_keyframes(), &vec![2, 3]);
}

#[test]
fn drag_select_adds_inside_and_drops_outside_without_ctrl() {
    let mut s = loaded(&[1, 2, 3]);
    s.drag_select(3, true, false);
    s.drag_select(1, true, false);
    assert_eq!(s.selected_keyframes(), &vec![1, 3]);
    s.drag_select(3, false, true);
    assert_eq!(s.selected_keyframes(), &vec![1, 3]);
    s.drag_select(3, false, false);
    assert_eq!(s.selected_keyframes(), &vec![1]);
    s.ensure_selected(2);
    s.ensure_selected(2);
    assert_eq!(s.selected_keyframes(), &vec![1, 2]);
}

#[test]
fn select_all_appends_every_identifier() {
    let mut s = loaded(&[7, 4]);
    s.click(4, false);
    s.select_all();
    assert_eq!(s.selected_keyframes(), &vec![4, 7, 4]);
    s.clear_selection();
    assert!(s.selected_keyframes().is_empty());
}

#[test]
fn copy_takes_the_selected_keyframes_in_order() {
    let mut s = loaded(&[10, 20, 30, 40]);
    s.click(40, true);
    s.click(20, true);
    s.copy();
    assert_eq!(clip_uids(&s), vec![20, 40]);
    assert_eq!(uids(&s), vec![10, 20, 30, 40]);
    s.clear_selection();
    s.copy();
    assert_eq!(clip_uids(&s), vec![20, 40]);
}

#[test]
fn cut_moves_the_selection_to_the_clipboard_last_first() {
    let mut s = loaded(&[10, 20, 30, 40]);
    s.click(10, true);
    s.click(30, true);
    s.cut();
    assert_eq!(uids(&s), vec![20, 40]);
    assert_eq!(s.keyframe_state().len(), 2);
    assert_eq!(clip_uids(&s), vec![30, 10]);
    assert!(s.selected_keyframes().is_empty());
    assert!(s.changed());
}

#[test]
fn cut_with_nothing_selected_changes_nothing_but_the_clipboard() {
    let mut s = loaded(&[10, 20]);
    s.click(10, false);
    s.copy();
    s.clear_selection();
    s.cut();
    assert_eq!(uids(&s), vec![10, 20]);
    assert!(clip_uids(&s).is_empty());
    assert!(!s.changed());
}

#[test]
fn paste_appends_copies_under_fresh_identifiers() {
    let mut s = loaded(&[10, 20, 30]);
    s.insert_image(20, vec![1, 2, 3]);
    s.click(20, true);
    s.click(30, true);
    s.copy();
    let n = s.paste();
    assert_eq!(n, 2);
    let all = uids(&s);
    assert_eq!(all.len(), 5);
    assert_eq!(&all[..3], &[10, 20, 30]);
    assert_eq!(s.selected_keyframes(), &all[3..].to_vec());
    assert_ne!(all[3], 20);
    assert_ne!(all[4], 30);
    assert_ne!(all[3], all[4]);
    assert_eq!(s.keyframe_state(), &vec![0, 0, 0, 0, 0]);
    assert_eq!(s.images().get(&all[3]), Some(&vec![1, 2, 3]));
    assert_eq!(s.images().get(&all[4]), None);
    assert!(s.should_sort());
    assert_eq!(s.keyframes()[3].timestamp, 1.0);
}

#[test]
fn paste_with_an_empty_clipboard_does_nothing() {
    let mut s = loaded(&[10]);
    assert_eq!(s.paste(), 0);
    assert_eq!(s.paste_from_menu(), 0);
    assert_eq!(uids(&s), vec![10]);
    assert!(!s.should_sort());
}

#[test]
fn menu_paste_does_not_copy_screenshots() {
    let mut s = loaded(&[10]);
    s.insert_image(10, vec![9]);
    s.click(10, false);
    s.copy();
    assert_eq!(s.paste_from_menu(), 1);
    let all = uids(&s);
    assert_eq!(all.len(), 2);
    assert_ne!(all[1], 10);
    assert_eq!(s.selected_keyframes(), &vec![all[1]]);
    assert_eq!(s.images().get(&all[1]), None);
}

#[test]
fn menu_cut_takes_keyframes_in_selection_order() {
    let mut s = loaded(&[10, 20, 30]);
    s.click(30, true);
    s.click(10, true);
    s.cut_from_menu();
    assert_eq!(uids(&s), vec![20]);
    assert_eq!(clip_uids(&s), vec![10, 30]);
    assert!(s.selected_keyframes().is_empty());
}

#[test]
fn menu_cut_of_a_missing_identifier_removes_the_first_keyframe() {
    let mut s = loaded(&[10, 20, 30]);
    s.ensure_selected(99);
    s.cut_from_menu();
    assert_eq!(uids(&s), vec![20, 30]);
    assert!(clip_uids(&s).is_empty());
}

#[test]
fn deleting_everything_selected_empties_the_sequencer() {
    let mut s = loaded(&[10, 20]);
    s.select_all();
    s.delete_selected();
    assert!(uids(&s).is_empty());
    assert!(s.keyframe_state().is_empty());
    assert!(s.selected_keyframes().is_empty());
    assert!(s.changed());
}

#[test]
fn deleting_selects_the_keyframe_that_took_the_place() {
    let mut s = loaded(&[10, 20, 30, 40]);
    s.click(20, true);
    s.click(30, true);
    s.delete_selected();
    assert_eq!(uids(&s), vec![10, 40]);
    assert_eq!(s.selected_keyframes(), &vec![40]);
}

#[test]
fn deleting_the_last_keyframe_selects_the_one_before() {
    let mut s = loaded(&[10, 20, 30]);
    s.click(30, false);
    s.delete_selected();
    assert_eq!(uids(&s), vec![10, 20]);
    assert_eq!(s.selected_keyframes(), &vec![20]);
}

#[test]
fn deleting_nothing_changes_nothing() {
    let mut s = loaded(&[10]);
    s.delete_selected();
    assert_eq!(uids(&s), vec![10]);
    assert!(!s.changed());
}

#[test]
fn selected_keyframes_show_as_selected() {
    let mut s = loaded(&[10, 20, 30]);
    s.click(20, true);
    s.click(30, true);
    s.refresh_states();
    assert_eq!(s.keyframe_state(), &vec![0, 2, 2]);
    assert_eq!(s.last_selected_index(), Some(2));
    s.click(30, true);
    s.refresh_states();
    assert_eq!(s.keyframe_state(), &vec![0, 2, 0]);
    assert_eq!(s.last_selected_index(), Some(1));
}

#[test]
fn a_missing_selected_identifier_marks_the_first_keyframe() {
    let mut s = loaded(&[10, 20]);
    s.ensure_selected(5);
    s.refresh_states();
    assert_eq!(s.keyframe_state(), &vec![2, 0]);
}

#[test]
fn the_playhead_starts_and_ends_keyframes() {
    let mut s = loaded(&[10, 20, 30]);
    let events = s.advance_playhead(&vec![true, false, false], true);
    assert_eq!(events, vec![(0, true)]);
    assert_eq!(s.keyframe_state(), &vec![1, 0, 0]);
    let events = s.advance_playhead(&vec![true, true, false], true);
    assert_eq!(events, vec![(1, true)]);
    let events = s.advance_playhead(&vec![false, false, true], true);
    assert_eq!(events, vec![(0, false), (1, false), (2, true)]);
    assert_eq!(s.keyframe_state(), &vec![0, 0, 1]);
}

#[test]
fn the_playhead_highlights_without_events_when_not_playing() {
    let mut s = loaded(&[10, 20]);
    s.click(20, false);
    s.refresh_states();
    let events = s.advance_playhead(&vec![false, true], false);
    assert!(events.is_empty());
    assert_eq!(s.keyframe_state(), &vec![0, 1]);
}

#[test]
fn keyboard_navigation_moves_the_selection() {
    let mut s = loaded(&[10, 20, 30]);
    s.select_next(false);
    assert_eq!(s.selected_keyframes(), &vec![10]);
    s.select_next(false);
    assert_eq!(s.selected_keyframes(), &vec![20]);
    s.select_next(true);
    assert_eq!(s.selected_keyframes(), &vec![20, 30]);
    s.select_next(false);
    assert_eq!(s.selected_keyframes(), &vec![30]);
    s.select_previous(false);
    assert_eq!(s.selected_keyframes(), &vec![20]);
    s.select_previous(true);
    assert_eq!(s.selected_keyframes(), &vec![10, 20]);
    s.select_previous(false);
    assert_eq!(s.selected_keyframes(), &vec![10]);
}

#[test]
fn the_side_panel_shows_the_last_selected_keyframe() {
    let mut s = loaded(&[10, 20, 30]);
    assert_eq!(s.selected_index(), None);
    s.click(30, true);
    s.click(10, true);
    assert_eq!(s.selected_index(), Some(2));
}

/// Toggles from `was` and checks the flag flipped; returns the outcome.
fn toggled(s: &mut Editor, was: bool, clear: bool, at_playhead: bool) -> (bool, bool) {
    let mut flag = was;
    let r = s.toggle_recording(&mut flag, clear, at_playhead);
    assert_eq!(flag, !was);
    r
}

#[test]
fn stopping_a_recording_drops_the_stop_keyframe() {
    let mut s = loaded(&[10]);
    s.push_recorded(key(11, 2.0, Key::F8));
    assert!(s.changed());
    assert_eq!(toggled(&mut s, true, true, false), (false, true));
    assert_eq!(uids(&s), vec![10, 11]);
    assert_eq!(toggled(&mut s, true, false, true), (true, false));
    assert_eq!(uids(&s), vec![10]);
    assert_eq!(s.keyframe_state().len(), 1);
    assert_eq!(toggled(&mut s, true, true, true), (false, true));
}

#[test]
fn a_left_click_also_stops_a_recording() {
    let mut s = Editor::new();
    s.push_recorded(Keyframe {
        timestamp: 1.0,
        duration: 0.1,
        keyframe_type: KeyframeType::MouseBtn(Button::Left),
        kind: 2,
        uid: 3,
    });
    assert_eq!(toggled(&mut s, true, false, true), (true, false));
    assert!(s.keyframes().is_empty());
    assert_eq!(toggled(&mut s, true, true, true), (false, false));
}

#[test]
fn starting_an_overwriting_recording_clears_the_keyframes() {
    let mut s = loaded(&[10, 20]);
    assert_eq!(toggled(&mut s, false, false, false), (false, false));
    assert_eq!(uids(&s), vec![10, 20]);
    assert_eq!(toggled(&mut s, false, true, false), (false, true));
    assert!(uids(&s).is_empty());
}

#[test]
fn reorder_applies_only_permutations() {
    let mut s = loaded(&[10, 20, 30]);
    s.request_sort();
    assert!(!s.reorder(&vec![0, 0, 1]));
    assert!(!s.reorder(&vec![0, 1]));
    assert!(!s.reorder(&vec![0, 1, 3]));
    assert!(s.should_sort());
    assert!(s.reorder(&vec![2, 0, 1]));
    assert_eq!(uids(&s), vec![30, 10, 20]);
    assert!(!s.should_sort());
}

#[test]
fn timing_edits_and_flags() {
    let mut s = loaded(&[10, 20]);
    s.set_timing(1, 4.5, 0.25);
    assert_eq!(s.keyframes()[1].timestamp, 4.5);
    assert_eq!(s.keyframes()[1].duration, 0.25);
    s.mark_changed();
    assert!(s.changed());
    s.mark_saved();
    assert!(!s.changed());
    s.mark_changed();
    s.reset_for_new_file();
    assert!(uids(&s).is_empty());
    assert!(!s.changed());
}
