use vstd::prelude::*;
use crate::keys::{Button, Key};

verus! {

/// An input event seen by the recording thread. Presses carry what the
/// application keeps for a pending press (its keyframe) until the release.
pub enum RecordEvent<P> {
    KeyPress(Key, P),
    KeyRelease(Key),
    ButtonPress(Button, P),
    ButtonRelease(Button),
    MouseMove,
    Wheel(i64, i64),
}

/// What the application does after an event.
#[derive(Debug)]
pub enum RecordStep<P> {
    Nothing,
    /// Store the mouse position as a calibration sample
    CalibrationSample,
    /// The press was kept until its release; take its screenshot
    PressStored,
    /// This press was released: set its length and add it to the timeline
    Released(P),
    /// A release without a pending press
    Unmatched,
    /// Add a mouse move to the event's position, which becomes the
    /// previous position
    MouseMoved,
    /// Add a scroll by the wheel's delta
    Scrolled,
    /// Add a mouse move to the previous position (F9, to fill in moves
    /// that the recording resolution skipped)
    ManualMove,
}

/// The decision on one event.
#[derive(Debug)]
pub struct RecordOutcome<P> {
    /// The recording flag after the event (F8 toggles it)
    pub recording: bool,
    /// Whether playback is to stop (Escape)
    pub stop_playback: bool,
    /// Whether the previous mouse position goes back to the origin (a
    /// recording starts)
    pub reset_position: bool,
    pub step: RecordStep<P>,
}

/// Mouse moves left before one is recorded when a recording starts.
pub const MOVE_COUNTDOWN: i32 = 20;

/// The recording thread's memory: presses waiting for their release, and a
/// countdown that records one mouse move in every `resolution`.
pub struct Recorder<P> {
    mouse_keyframes: Vec<(Button, P)>,
    key_keyframes: Vec<(Key, P)>,
    mouse_move_count: i32,
}

/// Index of the first pending press of key `k`.
pub open spec fn first_key<P>(pending: Seq<(Key, P)>, k: Key) -> Option<int>
    decreases pending.len(),
{
    if pending.len() == 0 {
        None
    } else if pending[0].0 == k {
        Some(0)
    } else {
        match first_key(pending.drop_first(), k) {
            Some(i) => Some(i + 1),
            None => None,
        }
    }
}

/// Index of the first pending press of button `b`.
pub open spec fn first_button<P>(pending: Seq<(Button, P)>, b: Button) -> Option<int>
    decreases pending.len(),
{
    if pending.len() == 0 {
        None
    } else if pending[0].0 == b {
        Some(0)
    } else {
        match first_button(pending.drop_first(), b) {
            Some(i) => Some(i + 1),
            None => None,
        }
    }
}

proof fn lemma_first_key<P>(pending: Seq<(Key, P)>, k: Key, i: int)
    requires
        0 <= i <= pending.len(),
        forall|j: int| 0 <= j < i ==> pending[j].0 != k,
    ensures
        i < pending.len() && pending[i].0 == k ==> first_key(pending, k) == Some(i),
        i == pending.len() ==> first_key(pending, k) is None,
    decreases i,
{
    if i > 0 {
        lemma_first_key(pending.drop_first(), k, i - 1);
    } else if pending.len() > 0 && i < pending.len() && pending[0].0 != k {
    }
}

proof fn lemma_first_button<P>(pending: Seq<(Button, P)>, b: Button, i: int)
    requires
        0 <= i <= pending.len(),
        forall|j: int| 0 <= j < i ==> pending[j].0 != b,
    ensures
        i < pending.len() && pending[i].0 == b ==> first_button(pending, b) == Some(i),
        i == pending.len() ==> first_button(pending, b) is None,
    decreases i,
{
    if i > 0 {
        lemma_first_button(pending.drop_first(), b, i - 1);
    }
}

/// The outcome of an event outside calibration, with step `step`: F8's
/// release toggles recording, and starting a recording resets the previous
/// mouse position; Escape's release stops playback.
pub open spec fn outcome_with<P>(event: RecordEvent<P>, recording: bool, step: RecordStep<P>) -> RecordOutcome<P> {
    let toggle = event == RecordEvent::<P>::KeyRelease(Key::F8);
    RecordOutcome {
        recording: recording != toggle,
        stop_playback: event == RecordEvent::<P>::KeyRelease(Key::Escape),
        reset_position: toggle && !recording,
        step,
    }
}

/// The recorder's pending key presses, pending button presses and mouse
/// countdown after an event, with the outcome. While calibrating only mouse
/// moves count, as calibration samples. Otherwise, when not recording (as
/// before the event), nothing is recorded, and F8's release starts a
/// recording: pending key presses are forgotten and the countdown restarts.
/// While recording, F9's release asks for a mouse move at the previous
/// position; presses wait for their release, which completes the first
/// pending press of that key or button; with a `resolution` of 0 mouse
/// moves are not recorded, otherwise a move to a new position (`moved`) is
/// recorded when the countdown has run out, which restarts it at
/// `resolution`; a wheel event with a delta is recorded.
pub open spec fn record_step<P>(
    keys: Seq<(Key, P)>,
    buttons: Seq<(Button, P)>,
    count: int,
    event: RecordEvent<P>,
    calibrating: bool,
    recording: bool,
    resolution: i32,
    moved: bool,
) -> (Seq<(Key, P)>, Seq<(Button, P)>, int, RecordOutcome<P>) {
    if calibrating {
        (
            keys,
            buttons,
            count,
            RecordOutcome {
                recording,
                stop_playback: false,
                reset_position: false,
                step: if event is MouseMove {
                    RecordStep::CalibrationSample
                } else {
                    RecordStep::Nothing
                },
            },
        )
    } else if !recording {
        if event == RecordEvent::<P>::KeyRelease(Key::F8) {
            (Seq::empty(), buttons, MOVE_COUNTDOWN as int, outcome_with(event, recording, RecordStep::Nothing))
        } else {
            (keys, buttons, count, outcome_with(event, recording, RecordStep::Nothing))
        }
    } else if event == RecordEvent::<P>::KeyRelease(Key::F9) {
        (keys, buttons, count, outcome_with(event, recording, RecordStep::ManualMove))
    } else {
        match event {
            RecordEvent::KeyPress(k, p) => (
                keys.push((k, p)),
                buttons,
                count,
                outcome_with(event, recording, RecordStep::PressStored),
            ),
            RecordEvent::ButtonPress(b, p) => (
                keys,
                buttons.push((b, p)),
                count,
                outcome_with(event, recording, RecordStep::PressStored),
            ),
            RecordEvent::KeyRelease(k) => match first_key(keys, k) {
                Some(i) => (
                    keys.remove(i),
                    buttons,
                    count,
                    outcome_with(event, recording, RecordStep::Released(keys[i].1)),
                ),
                None => (keys, buttons, count, outcome_with(event, recording, RecordStep::Unmatched)),
            },
            RecordEvent::ButtonRelease(b) => match first_button(buttons, b) {
                Some(i) => (
                    keys,
                    buttons.remove(i),
                    count,
                    outcome_with(event, recording, RecordStep::Released(buttons[i].1)),
                ),
                None => (keys, buttons, count, outcome_with(event, recording, RecordStep::Unmatched)),
            },
            RecordEvent::MouseMove => if resolution == 0 {
                (keys, buttons, count, outcome_with(event, recording, RecordStep::Nothing))
            } else if moved && count - 1 <= 0 {
                (keys, buttons, resolution as int, outcome_with(event, recording, RecordStep::MouseMoved))
            } else {
                (keys, buttons, count - 1, outcome_with(event, recording, RecordStep::Nothing))
            },
            RecordEvent::Wheel(dx, dy) => if dx == 0 && dy == 0 {
                (keys, buttons, count, outcome_with(event, recording, RecordStep::Nothing))
            } else {
                (keys, buttons, count, outcome_with(event, recording, RecordStep::Scrolled))
            },
        }
    }
}

/// Finds the first pending press of key `k`.
fn find_key<P>(pending: &Vec<(Key, P)>, k: Key) -> (r: Option<usize>)
    ensures
        r matches Some(i) ==> first_key(pending@, k) == Some(i as int) && i < pending@.len(),
        r is None ==> first_key(pending@, k) is None,
{
    let mut i: usize = 0;
    while i < pending.len()
        invariant
            i <= pending@.len(),
            forall|j: int| 0 <= j < i ==> pending@[j].0 != k,
        decreases pending@.len() - i,
    {
        if pending[i].0 == k {
            proof {
                lemma_first_key(pending@, k, i as int);
            }
            return Some(i);
        }
        i = i + 1;
    }
    proof {
        lemma_first_key(pending@, k, i as int);
    }
    None
}

/// Finds the first pending press of button `b`.
fn find_button<P>(pending: &Vec<(Button, P)>, b: Button) -> (r: Option<usize>)
    ensures
        r matches Some(i) ==> first_button(pending@, b) == Some(i as int) && i < pending@.len(),
        r is None ==> first_button(pending@, b) is None,
{
    let mut i: usize = 0;
    while i < pending.len()
        invariant
            i <= pending@.len(),
            forall|j: int| 0 <= j < i ==> pending@[j].0 != b,
        decreases pending@.len() - i,
    {
        if pending[i].0 == b {
            proof {
                lemma_first_button(pending@, b, i as int);
            }
            return Some(i);
        }
        i = i + 1;
    }
    proof {
        lemma_first_button(pending@, b, i as int);
    }
    None
}

impl<P> Recorder<P> {
    /// Pending key presses, oldest first.
    pub closed spec fn keys(&self) -> Seq<(Key, P)> {
        self.key_keyframes@
    }

    /// Pending button presses, oldest first.
    pub closed spec fn buttons(&self) -> Seq<(Button, P)> {
        self.mouse_keyframes@
    }

    /// Mouse moves left before the next one is recorded.
    pub closed spec fn countdown(&self) -> i32 {
        self.mouse_move_count
    }

    /// A recorder with nothing pending.
    pub fn new() -> (r: Self)
        ensures
            r.keys().len() == 0,
            r.buttons().len() == 0,
            r.countdown() == MOVE_COUNTDOWN,
    {
        Recorder { mouse_keyframes: Vec::new(), key_keyframes: Vec::new(), mouse_move_count: MOVE_COUNTDOWN }
    }

    /// Mouse moves left before the next one is recorded.
    pub fn move_countdown(&self) -> (c: i32)
        ensures
            c == self.countdown(),
    {
        self.mouse_move_count
    }

    /// Decides what an input event does (`record_step`).
    pub fn handle(
        &mut self,
        event: RecordEvent<P>,
        calibrating: bool,
        recording: bool,
        resolution: i32,
        moved: bool,
    ) -> (out: RecordOutcome<P>)
        requires
            !calibrating && recording && event is MouseMove && resolution != 0 ==> old(self).countdown()
                > i32::MIN,
        ensures
            ({
                let r = record_step(
                    old(self).keys(),
                    old(self).buttons(),
                    old(self).countdown() as int,
                    event,
                    calibrating,
                    recording,
                    resolution,
                    moved,
                );
                &&& final(self).keys() == r.0
                &&& final(self).buttons() == r.1
                &&& final(self).countdown() == r.2
                &&& out == r.3
            }),
    {
        if calibrating {
            let step = match event {
                RecordEvent::MouseMove => RecordStep::CalibrationSample,
                _ => RecordStep::Nothing,
            };
            return RecordOutcome {
                recording,
                stop_playback: false,
                reset_position: false,
                step,
            };
        }
        let mut now_recording = recording;
        let mut stop_playback = false;
        let mut reset_position = false;
        let mut consumed = false;
        match &event {
            RecordEvent::KeyRelease(Key::F8) => {
                if recording {
                    now_recording = false;
                } else {
                    now_recording = true;
                    self.key_keyframes = Vec::new();
                    self.mouse_move_count = MOVE_COUNTDOWN;
                    reset_position = true;
                }
            },
            RecordEvent::KeyRelease(Key::Escape) => {
                stop_playback = true;
            },
            RecordEvent::KeyRelease(Key::F9) => {
                consumed = recording;
            },
            _ => {},
        }
        let mut step = RecordStep::Nothing;
        if consumed {
            step = RecordStep::ManualMove;
        } else if recording {
            step = match event {
                RecordEvent::ButtonPress(b, p) => {
                    self.mouse_keyframes.push((b, p));
                    RecordStep::PressStored
                },
                RecordEvent::KeyPress(k, p) => {
                    self.key_keyframes.push((k, p));
                    RecordStep::PressStored
                },
                RecordEvent::ButtonRelease(b) => {
                    match find_button(&self.mouse_keyframes, b) {
                        Some(index) => {
                            let (_, p) = self.mouse_keyframes.remove(index);
                            RecordStep::Released(p)
                        },
                        None => RecordStep::Unmatched,
                    }
                },
                RecordEvent::KeyRelease(k) => {
                    match find_key(&self.key_keyframes, k) {
                        Some(index) => {
                            let (_, p) = self.key_keyframes.remove(index);
                            RecordStep::Released(p)
                        },
                        None => RecordStep::Unmatched,
                    }
                },
                RecordEvent::MouseMove => {
                    if resolution == 0 {
                        RecordStep::Nothing
                    } else {
                        self.mouse_move_count = self.mouse_move_count - 1;
                        if moved && self.mouse_move_count <= 0 {
                            self.mouse_move_count = resolution;
                            RecordStep::MouseMoved
                        } else {
                            RecordStep::Nothing
                        }
                    }
                },
                RecordEvent::Wheel(dx, dy) => {
                    if dx == 0 && dy == 0 {
                        RecordStep::Nothing
                    } else {
                        RecordStep::Scrolled
                    }
                },
            };
        }
        RecordOutcome { recording: now_recording, stop_playback, reset_position, step }
    }
}

} // verus!
