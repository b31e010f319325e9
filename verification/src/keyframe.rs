use vstd::prelude::*;
use crate::keys::{Button, Key};
use crate::uid::new_uid;

verus! {

/// What a keyframe does when the playhead reaches it. `F` is the type of
/// times in seconds and `V` the type of screen positions and scroll deltas;
/// the library carries values of both without computing with them.
#[derive(Debug)]
pub enum KeyframeType<F, V> {
    /// Simulates a key press
    KeyBtn(Key),
    /// Simulates a mouse button press
    MouseBtn(Button),
    /// Moves the mouse to the given position
    MouseMove(V),
    /// Simulates a scroll action given a 2D delta vector
    Scroll(V),
    /// Pauses the sequencer for the set amount of time in seconds
    Wait(F),
    /// Presses several keys at once
    KeyStrokes(Vec<Key>),
    /// Moves the mouse to where a target image is found on screen
    MagicMove(String),
    /// Loops the keyframes within this keyframe's timeframe
    Loop(u32, u32),
}

/// Mathematical value of a `KeyframeType`.
pub enum KeyframeTypeModel<F, V> {
    KeyBtn(Key),
    MouseBtn(Button),
    MouseMove(V),
    Scroll(V),
    Wait(F),
    KeyStrokes(Seq<Key>),
    MagicMove(Seq<char>),
    Loop(u32, u32),
}

impl<F, V> View for KeyframeType<F, V> {
    type V = KeyframeTypeModel<F, V>;

    open spec fn view(&self) -> KeyframeTypeModel<F, V> {
        match self {
            KeyframeType::KeyBtn(k) => KeyframeTypeModel::KeyBtn(*k),
            KeyframeType::MouseBtn(b) => KeyframeTypeModel::MouseBtn(*b),
            KeyframeType::MouseMove(p) => KeyframeTypeModel::MouseMove(*p),
            KeyframeType::Scroll(d) => KeyframeTypeModel::Scroll(*d),
            KeyframeType::Wait(s) => KeyframeTypeModel::Wait(*s),
            KeyframeType::KeyStrokes(keys) => KeyframeTypeModel::KeyStrokes(keys@),
            KeyframeType::MagicMove(path) => KeyframeTypeModel::MagicMove(path@),
            KeyframeType::Loop(n, m) => KeyframeTypeModel::Loop(*n, *m),
        }
    }
}

/// One input of a recorded macro, laid out on the sequencer's timeline.
#[derive(Debug)]
pub struct Keyframe<F, V> {
    pub timestamp: F,
    pub duration: F,
    pub keyframe_type: KeyframeType<F, V>,
    /// Row of the timeline: 0 keyboard, 1 mouse move, 2 mouse button,
    /// 3 scroll, 4 wait, 5 key strokes, 6 magic move, 7 loop, 255 a
    /// calibration sample.
    pub kind: u8,
    pub uid: u128,
}

/// Mathematical value of a `Keyframe`.
pub struct KeyframeModel<F, V> {
    pub timestamp: F,
    pub duration: F,
    pub keyframe_type: KeyframeTypeModel<F, V>,
    pub kind: u8,
    pub uid: u128,
}

impl<F, V> View for Keyframe<F, V> {
    type V = KeyframeModel<F, V>;

    open spec fn view(&self) -> KeyframeModel<F, V> {
        KeyframeModel {
            timestamp: self.timestamp,
            duration: self.duration,
            keyframe_type: self.keyframe_type@,
            kind: self.kind,
            uid: self.uid,
        }
    }
}

/// A copy of a list of keys.
fn copy_keys(keys: &Vec<Key>) -> (copy: Vec<Key>)
    ensures
        copy@ == keys@,
{
    let mut copy: Vec<Key> = Vec::new();
    let mut i: usize = 0;
    while i < keys.len()
        invariant
            i <= keys.len(),
            copy@ == keys@.take(i as int),
        decreases keys.len() - i,
    {
        copy.push(keys[i]);
        i = i + 1;
        assert(copy@ =~= keys@.take(i as int));
    }
    assert(keys@.take(keys.len() as int) =~= keys@);
    copy
}

impl<F: Copy, V: Copy> KeyframeType<F, V> {
    /// A copy with the same value.
    pub fn duplicate(&self) -> (copy: Self)
        ensures
            copy@ == self@,
    {
        match self {
            KeyframeType::KeyBtn(k) => KeyframeType::KeyBtn(*k),
            KeyframeType::MouseBtn(b) => KeyframeType::MouseBtn(*b),
            KeyframeType::MouseMove(p) => KeyframeType::MouseMove(*p),
            KeyframeType::Scroll(d) => KeyframeType::Scroll(*d),
            KeyframeType::Wait(s) => KeyframeType::Wait(*s),
            KeyframeType::KeyStrokes(keys) => KeyframeType::KeyStrokes(copy_keys(keys)),
            KeyframeType::MagicMove(path) => KeyframeType::MagicMove(path.clone()),
            KeyframeType::Loop(n, m) => KeyframeType::Loop(*n, *m),
        }
    }
}

impl<F: Copy, V: Copy> Keyframe<F, V> {
    /// A copy with the same value.
    pub fn duplicate(&self) -> (copy: Self)
        ensures
            copy@ == self@,
    {
        Keyframe {
            timestamp: self.timestamp,
            duration: self.duration,
            keyframe_type: self.keyframe_type.duplicate(),
            kind: self.kind,
            uid: self.uid,
        }
    }

    /// A mouse move to `pos` at `timestamp`, lasting `duration`, with a
    /// random identifier.
    pub fn mouse_move(timestamp: F, pos: V, duration: F) -> (kf: Self)
        ensures
            kf.timestamp == timestamp,
            kf.duration == duration,
            kf.keyframe_type@ == KeyframeTypeModel::<F, V>::MouseMove(pos),
            kf.kind == 1,
    {
        Keyframe {
            timestamp,
            duration,
            keyframe_type: KeyframeType::MouseMove(pos),
            kind: 1,
            uid: new_uid(),
        }
    }

    /// A press of mouse button `btn`, with a random identifier.
    pub fn mouse_button(timestamp: F, duration: F, btn: Button) -> (kf: Self)
        ensures
            kf.timestamp == timestamp,
            kf.duration == duration,
            kf.keyframe_type@ == KeyframeTypeModel::<F, V>::MouseBtn(btn),
            kf.kind == 2,
    {
        Keyframe {
            timestamp,
            duration,
            keyframe_type: KeyframeType::MouseBtn(btn),
            kind: 2,
            uid: new_uid(),
        }
    }

    /// A press of key `key`, with a random identifier.
    pub fn key_btn(timestamp: F, duration: F, key: Key) -> (kf: Self)
        ensures
            kf.timestamp == timestamp,
            kf.duration == duration,
            kf.keyframe_type@ == KeyframeTypeModel::<F, V>::KeyBtn(key),
            kf.kind == 0,
    {
        Keyframe {
            timestamp,
            duration,
            keyframe_type: KeyframeType::KeyBtn(key),
            kind: 0,
            uid: new_uid(),
        }
    }

    /// A scroll by `delta`, lasting `duration`, with a random identifier.
    pub fn scroll(timestamp: F, delta: V, duration: F) -> (kf: Self)
        ensures
            kf.timestamp == timestamp,
            kf.duration == duration,
            kf.keyframe_type@ == KeyframeTypeModel::<F, V>::Scroll(delta),
            kf.kind == 3,
    {
        Keyframe {
            timestamp,
            duration,
            keyframe_type: KeyframeType::Scroll(delta),
            kind: 3,
            uid: new_uid(),
        }
    }
}

} // verus!
