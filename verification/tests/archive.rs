use automate::archive::image_entry_name;
use automate::sequencer::Sequencer;
use automate::shortcuts::{clipboard_action, ClipboardAction, FrameEvent};

type Editor = Sequencer<f32, (f32, f32)>;

const UID: u128 = 0xa4a3a2a1_b2b1_c2c1_d1d2_d3d4d5d6d7d8;

#[test]
fn entry_names_are_hyphenated_lowercase_uuids() {
    assert_eq!(image_entry_name(UID), "a1a2a3a4-b1b2-c1c2-d1d2-d3d4d5d6d7d8");
    assert_eq!(image_entry_name(0), "00000000-0000-0000-0000-000000000000");
    assert_eq!(image_entry_name(1), "00000000-0000-0000-0000-000000000001");
}

#[test]
fn screenshots_load_under_the_identifier_their_name_stands_for() {
    let mut s = Editor::new();
    let entries = vec![
        ("a1a2a3a4-b1b2-c1c2-d1d2-d3d4d5d6d7d8".to_string(), vec![1u8, 2]),
        (image_entry_name(7), vec![3u8]),
    ];
    assert!(s.load_images(entries));
    assert_eq!(s.images().get(&UID), Some(&vec![1u8, 2]));
    assert_eq!(s.images().get(&7), Some(&vec![3u8]));
    assert_eq!(s.images().len(), 2);
}

#[test]
fn a_later_entry_replaces_an_earlier_one() {
    let mut s = Editor::new();
    let entries = vec![(image_entry_name(5), vec![1u8]), (image_entry_name(5), vec![2u8])];
    assert!(s.load_images(entries));
    assert_eq!(s.images().get(&5), Some(&vec![2u8]));
}

#[test]
fn a_bad_entry_name_loads_nothing() {
    let mut s = Editor::new();
    let entries = vec![(image_entry_name(5), vec![1u8]), ("data".to_string(), vec![2u8])];
    assert!(!s.load_images(entries));
    assert!(s.images().is_empty());
}

#[test]
fn saved_names_load_back() {
    for uid in [0u128, 1, UID, u128::MAX, 0x0123_4567_89ab_cdef_0011_2233_4455_6677] {
        let mut s = Editor::new();
        assert!(s.load_images(vec![(image_entry_name(uid), vec![9u8])]));
        assert_eq!(s.images().get(&uid), Some(&vec![9u8]));
    }
}

#[test]
fn only_the_first_clipboard_event_counts() {
    let events = vec![FrameEvent::Other, FrameEvent::Paste, FrameEvent::Copy];
    assert_eq!(clipboard_action(&events, false), Some(ClipboardAction::Paste));
    assert_eq!(clipboard_action(&events, true), None);
    assert_eq!(clipboard_action(&vec![FrameEvent::Other], false), None);
    assert_eq!(clipboard_action(&vec![FrameEvent::Cut, FrameEvent::Cut], false), Some(ClipboardAction::Cut));
}
