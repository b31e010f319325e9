use vstd::prelude::*;
use crate::keyframe::{KeyframeType, KeyframeTypeModel};
use crate::keys::{Button, Key};

verus! {

/// The input to simulate when the playhead enters or leaves a keyframe.
#[derive(Debug)]
pub enum PlaybackAction<F, V> {
    PressKey(Key),
    ReleaseKey(Key),
    PressButton(Button),
    ReleaseButton(Button),
    /// Move the mouse to this position (plus the monitor offset)
    MoveMouse(V),
    Scroll(V),
    /// Block for this many seconds
    Sleep(F),
    Nothing,
}

/// The action for a keyframe of type `t` at its start (`start`) or end:
/// keys and buttons are pressed at the start and released at the end;
/// moves, scrolls and waits act at the start only.
pub open spec fn action_for<F, V>(t: KeyframeTypeModel<F, V>, start: bool) -> PlaybackAction<F, V> {
    match t {
        KeyframeTypeModel::KeyBtn(k) => if start {
            PlaybackAction::PressKey(k)
        } else {
            PlaybackAction::ReleaseKey(k)
        },
        KeyframeTypeModel::MouseBtn(b) => if start {
            PlaybackAction::PressButton(b)
        } else {
            PlaybackAction::ReleaseButton(b)
        },
        KeyframeTypeModel::MouseMove(p) => if start {
            PlaybackAction::MoveMouse(p)
        } else {
            PlaybackAction::Nothing
        },
        KeyframeTypeModel::Scroll(d) => if start {
            PlaybackAction::Scroll(d)
        } else {
            PlaybackAction::Nothing
        },
        KeyframeTypeModel::Wait(s) => if start {
            PlaybackAction::Sleep(s)
        } else {
            PlaybackAction::Nothing
        },
        _ => PlaybackAction::Nothing,
    }
}

/// Decides what simulating a keyframe does at its start or end.
pub fn handle_playing_keyframe<F: Copy, V: Copy>(t: &KeyframeType<F, V>, start: bool) -> (action:
    PlaybackAction<F, V>)
    ensures
        action == action_for(t@, start),
{
    match t {
        KeyframeType::KeyBtn(k) => if start {
            PlaybackAction::PressKey(*k)
        } else {
            PlaybackAction::ReleaseKey(*k)
        },
        KeyframeType::MouseBtn(b) => if start {
            PlaybackAction::PressButton(*b)
        } else {
            PlaybackAction::ReleaseButton(*b)
        },
        KeyframeType::MouseMove(p) => if start {
            PlaybackAction::MoveMouse(*p)
        } else {
            PlaybackAction::Nothing
        },
        KeyframeType::Scroll(d) => if start {
            PlaybackAction::Scroll(*d)
        } else {
            PlaybackAction::Nothing
        },
        KeyframeType::Wait(s) => if start {
            PlaybackAction::Sleep(*s)
        } else {
            PlaybackAction::Nothing
        },
        _ => PlaybackAction::Nothing,
    }
}

/// What happens when playback reaches the end of the last keyframe: with
/// repeats left the macro starts over with one repeat fewer (`true`),
/// otherwise playback stops (`false`).
pub fn playback_finished(repeats: i32) -> (r: (i32, bool))
    ensures
        repeats > 1 ==> r.0 == repeats - 1 && r.1,
        repeats <= 1 ==> r == (repeats, false),
{
    if repeats > 1 {
        (repeats - 1, true)
    } else {
        (repeats, false)
    }
}

} // verus!
