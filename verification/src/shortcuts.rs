use vstd::prelude::*;

verus! {

/// Keys pressed this frame that the editor reacts to.
#[derive(Debug, Clone, Copy, PartialEq, Eq, Structural)]
pub struct KeysPressed {
    pub s: bool,
    pub n: bool,
    pub o: bool,
    pub z: bool,
    pub y: bool,
    pub comma: bool,
    pub arrow_right: bool,
    pub arrow_left: bool,
    pub space: bool,
    /// F8 was released this frame
    pub f8_released: bool,
}

/// An editor action triggered from the keyboard.
#[derive(Debug, Clone, Copy, PartialEq, Eq, Structural)]
pub enum Command {
    SaveFile,
    NewFile,
    OpenFile,
    Undo,
    Redo,
    ToggleSettings,
    /// Select the next keyframe, adding it to the selection when `true`
    NextKeyframe(bool),
    /// Select the previous keyframe, adding it to the selection when `true`
    PreviousKeyframe(bool),
    StepTime,
    TogglePlay,
    ResetTime,
    ToggleRecording,
}

/// The first file or window command that ctrl and the pressed keys ask
/// for: S, N, O, Z, Y and comma in that priority.
pub open spec fn ctrl_command(p: KeysPressed) -> Option<Command> {
    if p.s {
        Some(Command::SaveFile)
    } else if p.n {
        Some(Command::NewFile)
    } else if p.o {
        Some(Command::OpenFile)
    } else if p.z {
        Some(Command::Undo)
    } else if p.y {
        Some(Command::Redo)
    } else if p.comma {
        Some(Command::ToggleSettings)
    } else {
        None
    }
}

/// The first playback command the pressed keys ask for without ctrl: right
/// arrow, space, left arrow and F8 in that priority.
pub open spec fn plain_command(p: KeysPressed) -> Option<Command> {
    if p.arrow_right {
        Some(Command::StepTime)
    } else if p.space {
        Some(Command::TogglePlay)
    } else if p.arrow_left {
        Some(Command::ResetTime)
    } else if p.f8_released {
        Some(Command::ToggleRecording)
    } else {
        None
    }
}

/// The commands of a frame, in the order they run: with ctrl, at most one
/// file or window command, then the keyframe navigation of the arrows; without
/// ctrl, at most one playback command.
pub open spec fn commands_for(ctrl: bool, shift: bool, p: KeysPressed) -> Seq<Command> {
    if ctrl {
        let first = match ctrl_command(p) {
            Some(c) => seq![c],
            None => Seq::empty(),
        };
        let right = if p.arrow_right {
            seq![Command::NextKeyframe(shift)]
        } else {
            Seq::empty()
        };
        let left = if p.arrow_left {
            seq![Command::PreviousKeyframe(shift)]
        } else {
            Seq::empty()
        };
        first + right + left
    } else {
        match plain_command(p) {
            Some(c) => seq![c],
            None => Seq::empty(),
        }
    }
}

/// Turns the keys of a frame into editor commands.
pub fn shortcut_commands(ctrl: bool, shift: bool, p: &KeysPressed) -> (commands: Vec<Command>)
    ensures
        commands@ == commands_for(ctrl, shift, *p),
{
    let mut commands: Vec<Command> = Vec::new();
    if ctrl {
        if p.s {
            commands.push(Command::SaveFile);
        } else if p.n {
            commands.push(Command::NewFile);
        } else if p.o {
            commands.push(Command::OpenFile);
        } else if p.z {
            commands.push(Command::Undo);
        } else if p.y {
            commands.push(Command::Redo);
        } else if p.comma {
            commands.push(Command::ToggleSettings);
        }
        if p.arrow_right {
            commands.push(Command::NextKeyframe(shift));
        }
        if p.arrow_left {
            commands.push(Command::PreviousKeyframe(shift));
        }
    } else {
        if p.arrow_right {
            commands.push(Command::StepTime);
        } else if p.space {
            commands.push(Command::TogglePlay);
        } else if p.arrow_left {
            commands.push(Command::ResetTime);
        } else if p.f8_released {
            commands.push(Command::ToggleRecording);
        }
    }
    assert(commands@ =~= commands_for(ctrl, shift, *p));
    commands
}

/// An input event of a frame, as far as the clipboard shortcuts go.
#[derive(Debug, Clone, Copy, PartialEq, Eq, Structural)]
pub enum FrameEvent {
    Copy,
    Paste,
    Cut,
    Other,
}

/// A clipboard action on the selected keyframes.
#[derive(Debug, Clone, Copy, PartialEq, Eq, Structural)]
pub enum ClipboardAction {
    Copy,
    Paste,
    Cut,
}

/// The action of the first copy, paste or cut event among `events`.
pub open spec fn first_clipboard_action(events: Seq<FrameEvent>) -> Option<ClipboardAction>
    decreases events.len(),
{
    if events.len() == 0 {
        None
    } else {
        match events[0] {
            FrameEvent::Copy => Some(ClipboardAction::Copy),
            FrameEvent::Paste => Some(ClipboardAction::Paste),
            FrameEvent::Cut => Some(ClipboardAction::Cut),
            FrameEvent::Other => first_clipboard_action(events.drop_first()),
        }
    }
}

/// The clipboard action a frame's events ask for. A ctrl+c, ctrl+v or
/// ctrl+x press can arrive as several events, so only the first counts,
/// and none once an action was taken (`done`) until the flag is cleared.
pub fn clipboard_action(events: &Vec<FrameEvent>, done: bool) -> (r: Option<ClipboardAction>)
    ensures
        done ==> r is None,
        !done ==> r == first_clipboard_action(events@),
{
    if done {
        return None;
    }
    let mut i: usize = 0;
    assert(events@.skip(0) =~= events@);
    while i < events.len()
        invariant
            i <= events@.len(),
            !done,
            first_clipboard_action(events@) == first_clipboard_action(events@.skip(i as int)),
        decreases events@.len() - i,
    {
        assert(events@.skip(i as int).drop_first() =~= events@.skip(i + 1));
        assert(events@.skip(i as int)[0] == events@[i as int]);
        match events[i] {
            FrameEvent::Copy => return Some(ClipboardAction::Copy),
            FrameEvent::Paste => return Some(ClipboardAction::Paste),
            FrameEvent::Cut => return Some(ClipboardAction::Cut),
            FrameEvent::Other => {},
        }
        i = i + 1;
    }
    assert(events@.skip(i as int).len() == 0);
    None
}

} // verus!
