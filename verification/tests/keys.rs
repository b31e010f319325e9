use automate::keys::{
    button_to_char, key_to_char, keys_to_string, scroll_to_char, string_to_keys, strings_to_keys,
    Button, Key,
};

#[test]
fn parses_single_key_names() {
    assert_eq!(string_to_keys("a"), Some(Key::KeyA));
    assert_eq!(string_to_keys("z"), Some(Key::KeyZ));
    assert_eq!(string_to_keys("space"), Some(Key::Space));
    assert_eq!(string_to_keys("f12"), Some(Key::F12));
    assert_eq!(string_to_keys("kp7"), Some(Key::Kp7));
    assert_eq!(string_to_keys("esc"), Some(Key::Escape));
    assert_eq!(string_to_keys("shiftright"), Some(Key::ShiftRight));
}

#[test]
fn parses_punctuation_as_written() {
    assert_eq!(string_to_keys("("), Some(Key::LeftBracket));
    assert_eq!(string_to_keys(")"), Some(Key::RightBracket));
    assert_eq!(string_to_keys("),"), Some(Key::Comma));
    assert_eq!(string_to_keys(","), None);
    assert_eq!(string_to_keys("\""), Some(Key::Quote));
    assert_eq!(string_to_keys("\\"), Some(Key::BackSlash));
}

#[test]
fn rejects_unknown_names() {
    assert_eq!(string_to_keys(""), None);
    assert_eq!(string_to_keys("A"), None);
    assert_eq!(string_to_keys("ab"), None);
    assert_eq!(string_to_keys("enter"), None);
}

#[test]
fn labels_letters_digits_and_names() {
    assert_eq!(key_to_char(&Key::KeyA), "a");
    assert_eq!(key_to_char(&Key::Num0), "0");
    assert_eq!(key_to_char(&Key::Kp3), "3");
    assert_eq!(key_to_char(&Key::Space), "_");
    assert_eq!(key_to_char(&Key::Insert), "insert");
    assert_eq!(key_to_char(&Key::KpDelete), "del");
    assert_eq!(key_to_char(&Key::BackSlash), "\"");
    assert_eq!(key_to_char(&Key::KpDivide), "\\");
}

#[test]
fn labels_function_keys_as_the_sequencer_shows_them() {
    assert_eq!(key_to_char(&Key::F1), "Ff1");
    assert_eq!(key_to_char(&Key::F6), "Ff6");
    assert_eq!(key_to_char(&Key::F7), "F7");
    assert_eq!(key_to_char(&Key::F12), "Ff12");
}

#[test]
fn labels_with_phosphor_icons() {
    assert_eq!(key_to_char(&Key::Tab), "\u{E064}");
    assert_eq!(key_to_char(&Key::UpArrow), "\u{E08E}");
    assert_eq!(key_to_char(&Key::Return), "\u{E07E}");
    assert_eq!(key_to_char(&Key::KpReturn), "\u{E07E}");
    assert_eq!(key_to_char(&Key::ShiftLeft), "\u{E52E}");
    assert_eq!(key_to_char(&Key::Alt), "\u{E8A8}");
    assert_eq!(key_to_char(&Key::Unknown(42)), "\u{E4E0}");
    assert_eq!(key_to_char(&Key::Home), egui_phosphor::regular::HOUSE);
    assert_eq!(key_to_char(&Key::Minus), egui_phosphor::regular::MINUS);
}

#[test]
fn labels_buttons_and_scrolls() {
    assert_eq!(button_to_char(&Button::Left), egui_phosphor::regular::MOUSE_LEFT_CLICK);
    assert_eq!(button_to_char(&Button::Right), "\u{E336}");
    assert_eq!(button_to_char(&Button::Middle), "\u{E338}");
    assert_eq!(button_to_char(&Button::Unknown(4)), "");
    assert_eq!(scroll_to_char(true), egui_phosphor::regular::ARROWS_HORIZONTAL);
    assert_eq!(scroll_to_char(false), "");
}

#[test]
fn joins_key_labels() {
    assert_eq!(keys_to_string(&vec![]), "");
    assert_eq!(keys_to_string(&vec![Key::KeyH, Key::KeyI, Key::Space]), "hi_");
    assert_eq!(keys_to_string(&vec![Key::ControlLeft, Key::KeyC]), "ctrlleftc");
}

#[test]
fn reads_a_line_of_key_names() {
    assert_eq!(strings_to_keys(&"ctrlleft c".to_string()), vec![Key::ControlLeft, Key::KeyC]);
    assert_eq!(strings_to_keys(&"space".to_string()), vec![Key::Space]);
    assert_eq!(strings_to_keys(&"".to_string()), vec![]);
}

#[test]
fn reads_unknown_words_character_by_character() {
    assert_eq!(strings_to_keys(&"hi".to_string()), vec![Key::KeyH, Key::KeyI]);
    assert_eq!(strings_to_keys(&"a1!".to_string()), vec![Key::KeyA, Key::Num1]);
    assert_eq!(strings_to_keys(&"esc hi".to_string()), vec![Key::Escape, Key::KeyH, Key::KeyI]);
}

#[test]
fn skips_empty_pieces_between_spaces() {
    assert_eq!(strings_to_keys(&"a  b ".to_string()), vec![Key::KeyA, Key::KeyB]);
    assert_eq!(strings_to_keys(&" tab".to_string()), vec![Key::Tab]);
}

#[test]
fn labels_that_are_names_read_back_as_their_key() {
    let keys = [
        Key::KeyA, Key::KeyQ, Key::KeyZ, Key::Num0, Key::Num9, Key::BackQuote, Key::LeftBracket,
        Key::RightBracket, Key::SemiColon, Key::Quote, Key::Dot, Key::Slash, Key::Insert, Key::End,
        Key::Escape, Key::AltGr, Key::ControlLeft, Key::ControlRight, Key::MetaLeft,
        Key::MetaRight, Key::PageUp, Key::PageDown,
    ];
    for k in keys {
        assert_eq!(string_to_keys(&key_to_char(&k)), Some(k));
    }
    assert_eq!(string_to_keys(&key_to_char(&Key::Kp0)), Some(Key::Num0));
    assert_eq!(string_to_keys(","), None);
    assert_eq!(string_to_keys("),"), Some(Key::Comma));
}
