use automate::settings::{
    default_keybinds, Keybind, KeybindType, Shortcut, ShortcutKey, SettingsPage,
};

#[test]
fn settings_open_on_preferences() {
    assert_eq!(SettingsPage::default(), SettingsPage::Preferences);
}

#[test]
fn default_keybinds_are_listed_in_order() {
    let keybinds = default_keybinds();
    assert_eq!(keybinds.len(), 14);
    assert_eq!(keybinds[0].text, "Save File");
    assert_eq!(keybinds[0].kind, KeybindType::SaveFile);
    assert_eq!(keybinds[0].keybind, Shortcut { ctrl: true, key: ShortcutKey::S });
    assert_eq!(keybinds[8].text, "Toggle Play");
    assert_eq!(keybinds[8].keybind, Shortcut { ctrl: false, key: ShortcutKey::Space });
    assert_eq!(keybinds[9].kind, KeybindType::ResetTime);
    assert_eq!(keybinds[9].keybind, Shortcut { ctrl: false, key: ShortcutKey::ArrowLeft });
    assert_eq!(keybinds[13].text, "Select All");
    assert_eq!(keybinds[13].keybind, Shortcut { ctrl: true, key: ShortcutKey::A });
}

#[test]
fn keybind_new_keeps_its_fields() {
    let k = Keybind::new(
        "Redo".to_string(),
        KeybindType::Redo,
        Shortcut { ctrl: true, key: ShortcutKey::Y },
    );
    assert_eq!(k.text, "Redo");
    assert_eq!(k.kind, KeybindType::Redo);
    assert!(k.keybind.ctrl);
}
