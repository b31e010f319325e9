use vstd::prelude::*;

verus! {

/// What a shortcut of the settings page does.
#[derive(Debug, Clone, Copy, PartialEq, Eq, Structural)]
pub enum KeybindType {
    SaveFile,
    NewFile,
    OpenFile,
    Undo,
    Redo,
    ToggleSettings,
    NextKeyframe,
    PreviousKeyframe,
    TogglePlay,
    ResetTime,
    ToggleRecording,
    ToggleExecution,
    AddKeyframe,
    SelectAll,
}

/// Screen edge that stops playback when the mouse is slammed into it.
#[derive(Debug, Clone, Copy, PartialEq, Eq, Structural)]
pub enum MonitorEdge {
    Left,
    Right,
    Bottom,
    Top,
}

/// Page shown by the settings window.
#[derive(Debug, Clone, Copy, PartialEq, Eq, Structural)]
pub enum SettingsPage {
    Preferences,
    Shortcuts,
}

impl Default for SettingsPage {
    fn default() -> (page: Self)
        ensures
            page == SettingsPage::Preferences,
    {
        SettingsPage::Preferences
    }
}

/// A key that a default shortcut uses.
#[derive(Debug, Clone, Copy, PartialEq, Eq, Structural)]
pub enum ShortcutKey {
    S,
    N,
    O,
    Z,
    Y,
    Comma,
    ArrowRight,
    ArrowLeft,
    Space,
    F8,
    Escape,
    F9,
    A,
}

/// A key, with or without ctrl held.
#[derive(Debug, Clone, Copy, PartialEq, Eq, Structural)]
pub struct Shortcut {
    pub ctrl: bool,
    pub key: ShortcutKey,
}

/// A shortcut listed on the settings page.
pub struct Keybind {
    pub text: String,
    pub kind: KeybindType,
    pub keybind: Shortcut,
}

impl Keybind {
    pub fn new(text: String, kind: KeybindType, keybind: Shortcut) -> (k: Self)
        ensures
            k.text@ == text@,
            k.kind == kind,
            k.keybind == keybind,
    {
        Keybind { text, kind, keybind }
    }
}

/// The shortcuts listed by default: name, action and keys of each.
pub open spec fn default_keybind(i: int) -> (Seq<char>, KeybindType, Shortcut) {
    if i == 0 {
        ("Save File"@, KeybindType::SaveFile, Shortcut { ctrl: true, key: ShortcutKey::S })
    } else if i == 1 {
        ("New File"@, KeybindType::NewFile, Shortcut { ctrl: true, key: ShortcutKey::N })
    } else if i == 2 {
        ("Open File"@, KeybindType::OpenFile, Shortcut { ctrl: true, key: ShortcutKey::O })
    } else if i == 3 {
        ("Undo"@, KeybindType::Undo, Shortcut { ctrl: true, key: ShortcutKey::Z })
    } else if i == 4 {
        ("Redo"@, KeybindType::Redo, Shortcut { ctrl: true, key: ShortcutKey::Y })
    } else if i == 5 {
        ("Toggle Settings"@, KeybindType::ToggleSettings, Shortcut { ctrl: true, key: ShortcutKey::Comma })
    } else if i == 6 {
        ("Next Keyframe"@, KeybindType::NextKeyframe, Shortcut { ctrl: true, key: ShortcutKey::ArrowRight })
    } else if i == 7 {
        ("Previous Keyframe"@, KeybindType::PreviousKeyframe, Shortcut { ctrl: true, key: ShortcutKey::ArrowLeft })
    } else if i == 8 {
        ("Toggle Play"@, KeybindType::TogglePlay, Shortcut { ctrl: false, key: ShortcutKey::Space })
    } else if i == 9 {
        ("Reset Time"@, KeybindType::ResetTime, Shortcut { ctrl: false, key: ShortcutKey::ArrowLeft })
    } else if i == 10 {
        ("Toggle Recording"@, KeybindType::ToggleRecording, Shortcut { ctrl: false, key: ShortcutKey::F8 })
    } else if i == 11 {
        ("Toggle Execution"@, KeybindType::ToggleExecution, Shortcut { ctrl: false, key: ShortcutKey::Escape })
    } else if i == 12 {
        ("Add Keyframe"@, KeybindType::AddKeyframe, Shortcut { ctrl: false, key: ShortcutKey::F9 })
    } else {
        ("Select All"@, KeybindType::SelectAll, Shortcut { ctrl: true, key: ShortcutKey::A })
    }
}

/// Number of shortcuts listed by default.
pub const DEFAULT_KEYBIND_COUNT: usize = 14;

/// The shortcuts the settings start with.
pub fn default_keybinds() -> (keybinds: Vec<Keybind>)
    ensures
        keybinds@.len() == DEFAULT_KEYBIND_COUNT,
        forall|i: int|
            0 <= i < DEFAULT_KEYBIND_COUNT ==> {
                &&& #[trigger] keybinds@[i].text@ == default_keybind(i).0
                &&& keybinds@[i].kind == default_keybind(i).1
                &&& keybinds@[i].keybind == default_keybind(i).2
            },
{
    let mut keybinds: Vec<Keybind> = Vec::new();
    keybinds.push(
        Keybind::new(
            String::from_str("Save File"),
            KeybindType::SaveFile,
            Shortcut { ctrl: true, key: ShortcutKey::S },
        ),
    );
    keybinds.push(
        Keybind::new(
            String::from_str("New File"),
            KeybindType::NewFile,
            Shortcut { ctrl: true, key: ShortcutKey::N },
        ),
    );
    keybinds.push(
        Keybind::new(
            String::from_str("Open File"),
            KeybindType::OpenFile,
            Shortcut { ctrl: true, key: ShortcutKey::O },
        ),
    );
    keybinds.push(
        Keybind::new(
            String::from_str("Undo"),
            KeybindType::Undo,
            Shortcut { ctrl: true, key: ShortcutKey::Z },
        ),
    );
    keybinds.push(
        Keybind::new(
            String::from_str("Redo"),
            KeybindType::Redo,
            Shortcut { ctrl: true, key: ShortcutKey::Y },
        ),
    );
    keybinds.push(
        Keybind::new(
            String::from_str("Toggle Settings"),
            KeybindType::ToggleSettings,
            Shortcut { ctrl: true, key: ShortcutKey::Comma },
        ),
    );
    keybinds.push(
        Keybind::new(
            String::from_str("Next Keyframe"),
            KeybindType::NextKeyframe,
            Shortcut { ctrl: true, key: ShortcutKey::ArrowRight },
        ),
    );
    keybinds.push(
        Keybind::new(
            String::from_str("Previous Keyframe"),
            KeybindType::PreviousKeyframe,
            Shortcut { ctrl: true, key: ShortcutKey::ArrowLeft },
        ),
    );
    keybinds.push(
        Keybind::new(
            String::from_str("Toggle Play"),
            KeybindType::TogglePlay,
            Shortcut { ctrl: false, key: ShortcutKey::Space },
        ),
    );
    keybinds.push(
        Keybind::new(
            String::from_str("Reset Time"),
            KeybindType::ResetTime,
            Shortcut { ctrl: false, key: ShortcutKey::ArrowLeft },
        ),
    );
    keybinds.push(
        Keybind::new(
            String::from_str("Toggle Recording"),
            KeybindType::ToggleRecording,
            Shortcut { ctrl: false, key: ShortcutKey::F8 },
        ),
    );
    keybinds.push(
        Keybind::new(
            String::from_str("Toggle Execution"),
            KeybindType::ToggleExecution,
            Shortcut { ctrl: false, key: ShortcutKey::Escape },
        ),
    );
    keybinds.push(
        Keybind::new(
            String::from_str("Add Keyframe"),
            KeybindType::AddKeyframe,
            Shortcut { ctrl: false, key: ShortcutKey::F9 },
        ),
    );
    keybinds.push(
        Keybind::new(
            String::from_str("Select All"),
            KeybindType::SelectAll,
            Shortcut { ctrl: true, key: ShortcutKey::A },
        ),
    );
    keybinds
}

} // verus!
