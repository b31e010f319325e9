use automate::session::{dialog_message_suffix, window_title, DialogPurpose, SaveStep, Session};

#[test]
fn a_new_session_edits_an_untitled_saved_file() {
    let s = Session::new();
    assert_eq!(s.file_name(), "untitled.auto");
    assert!(s.is_uptodate());
    assert!(!s.show_save_dialog());
    assert_eq!(s.save_step(), SaveStep::UpToDate);
}

#[test]
fn new_file_without_changes_resets() {
    let mut s = Session::new();
    s.loaded("/tmp/macro.auto".to_string());
    assert!(s.new_file());
    assert_eq!(s.file_name(), "untitled.auto");
}

#[test]
fn new_file_with_changes_asks_first() {
    let mut s = Session::new();
    s.set_uptodate(false);
    assert!(!s.new_file());
    assert!(s.show_save_dialog());
    assert_eq!(s.dialog_purpose(), DialogPurpose::New);
    assert_eq!(s.dialog_dont_save(), DialogPurpose::New);
    assert!(!s.show_save_dialog());
    assert!(s.new_file());
}

#[test]
fn open_file_with_changes_asks_first() {
    let mut s = Session::new();
    assert!(s.open_file());
    s.set_uptodate(false);
    assert!(!s.open_file());
    assert_eq!(s.dialog_purpose(), DialogPurpose::Open);
    assert_eq!(s.dialog_dont_save(), DialogPurpose::Open);
    assert!(s.open_file());
}

#[test]
fn saving_asks_for_a_name_only_for_untitled_files() {
    let mut s = Session::new();
    s.set_uptodate(false);
    assert_eq!(s.save_step(), SaveStep::AskPath);
    s.set_file("macro.auto".to_string());
    assert_eq!(s.save_step(), SaveStep::Write);
    s.saved();
    assert_eq!(s.save_step(), SaveStep::UpToDate);
    s.save_as("/home/me/other.auto".to_string());
    assert_eq!(s.save_step(), SaveStep::Write);
}

#[test]
fn closing_with_changes_is_cancelled_until_allowed() {
    let mut s = Session::new();
    assert!(!s.close_requested());
    s.set_uptodate(false);
    assert!(s.close_requested());
    assert_eq!(s.dialog_purpose(), DialogPurpose::Close);
    s.dialog_cancel();
    assert!(s.close_requested());
    assert_eq!(s.dialog_saved(), DialogPurpose::Close);
    assert!(!s.close_requested());
}

#[test]
fn dont_save_on_close_allows_closing() {
    let mut s = Session::new();
    s.set_uptodate(false);
    s.close_requested();
    assert_eq!(s.dialog_dont_save(), DialogPurpose::Close);
    assert!(!s.is_uptodate());
    assert!(!s.close_requested());
}

#[test]
fn a_file_is_loaded_when_the_session_names_another() {
    let mut s = Session::new();
    assert!(!s.needs_load(&"".to_string()));
    s.set_file("a.auto".to_string());
    assert!(s.needs_load(&"b.auto".to_string()));
    assert!(!s.needs_load(&"a.auto".to_string()));
}

#[test]
fn titles_and_questions() {
    assert_eq!(window_title("macro.auto", true), "macro.auto - Automate");
    assert_eq!(window_title("macro.auto", false), "macro.auto* - Automate");
    assert_eq!(dialog_message_suffix(DialogPurpose::Close), " before exiting");
    assert_eq!(dialog_message_suffix(DialogPurpose::Open), "");
    assert_eq!(dialog_message_suffix(DialogPurpose::New), " before creating a new file");
}
