use vstd::prelude::*;
use vstd::multiset::Multiset;
use crate::keyframe::{KeyframeModel, KeyframeTypeModel};
use crate::playback::{action_for, PlaybackAction};
use crate::keys::{Button, Key};
use crate::recorder::{first_button, first_key, record_step, RecordEvent, RecordStep, MOVE_COUNTDOWN};
use crate::selection::{lemma_first_index, lemma_search_sorted, search_result, strictly_sorted};
use crate::sequencer::{
    click_result, drag_select_result, drag_start_result, kept, navigated, next_index, pasted_images,
    picked, playhead_events, playhead_state, previous_index, renamed,
};
use crate::shortcuts::{commands_for, Command, KeysPressed};

verus! {

/// A ctrl-click on a keyframe toggles whether it is selected, leaves the
/// rest of a selection in ascending order as it was, and a second ctrl-click
/// on the same keyframe gives back the selection as it was.
#[verifier::spinoff_prover]
pub proof fn lemma_ctrl_click_toggles(sel: Seq<u128>, uid: u128)
    requires
        strictly_sorted(sel),
        sel.len() < usize::MAX,
    ensures
        forall|x: u128| #[trigger]
            click_result(sel, uid, true).contains(x) <==> if x == uid {
                !sel.contains(uid)
            } else {
                sel.contains(x)
            },
        click_result(click_result(sel, uid, true), uid, true) == sel,
{
    lemma_search_sorted(sel, uid);
    let once = click_result(sel, uid, true);
    match search_result(sel, uid) {
        Ok(i) => {
            let i = i as int;
            assert(once == sel.remove(i));
            sel.remove_ensures(i);
            assert(forall|x: u128| #[trigger] once.contains(x) <==> if x == uid {
                !sel.contains(uid)
            } else {
                sel.contains(x)
            }) by {
                assert forall|x: u128| #[trigger] once.contains(x) implies (if x == uid {
                    !sel.contains(uid)
                } else {
                    sel.contains(x)
                }) by {
                    let k = choose|k: int| 0 <= k < once.len() && once[k] == x;
                    if k < i {
                        assert(sel[k] == x);
                        assert(sel[k] < sel[i]);
                    } else {
                        assert(sel[k + 1] == x);
                        assert(sel[i] < sel[k + 1]);
                    }
                }
                assert forall|x: u128|
                    (if x == uid {
                        !sel.contains(uid)
                    } else {
                        sel.contains(x)
                    }) implies #[trigger] once.contains(x) by {
                    if x != uid {
                        let k = choose|k: int| 0 <= k < sel.len() && sel[k] == x;
                        if k < i {
                            assert(once[k] == x);
                        } else {
                            assert(k != i);
                            assert(once[k - 1] == x);
                        }
                    }
                }
            }
            lemma_search_sorted(once, uid);
            assert(!once.contains(uid));
            match search_result(once, uid) {
                Err(j) => {
                    let j = j as int;
                    if j < i {
                        assert(once[j] == sel[j]);
                        assert(sel[j] < sel[i]);
                    } else if j > i {
                        assert(once[i] == sel[i + 1]);
                        assert(sel[i] < sel[i + 1]);
                    }
                    assert(j == i);
                    assert(once.insert(i, uid) =~= sel);
                },
                Ok(_) => {},
            }
        },
        Err(i) => {
            let i = i as int;
            assert(once == sel.insert(i, uid));
            sel.insert_ensures(i, uid);
            assert(forall|x: u128| #[trigger] once.contains(x) <==> if x == uid {
                !sel.contains(uid)
            } else {
                sel.contains(x)
            }) by {
                assert forall|x: u128| #[trigger] once.contains(x) implies (if x == uid {
                    !sel.contains(uid)
                } else {
                    sel.contains(x)
                }) by {
                    let k = choose|k: int| 0 <= k < once.len() && once[k] == x;
                    if k < i {
                        assert(sel[k] == x);
                    } else if k > i {
                        assert(sel[k - 1] == x);
                    }
                }
                assert forall|x: u128|
                    (if x == uid {
                        !sel.contains(uid)
                    } else {
                        sel.contains(x)
                    }) implies #[trigger] once.contains(x) by {
                    if x == uid {
                        assert(once[i] == uid);
                    } else {
                        let k = choose|k: int| 0 <= k < sel.len() && sel[k] == x;
                        if k < i {
                            assert(once[k] == x);
                        } else {
                            assert(once[k + 1] == x);
                        }
                    }
                }
            }
            lemma_search_sorted(once, uid);
            assert(once[i] == uid);
            match search_result(once, uid) {
                Ok(j) => {
                    let j = j as int;
                    if j != i {
                        if j < i {
                            assert(once[j] < once[i]);
                        } else {
                            assert(once[i] < once[j]);
                        }
                    }
                    assert(once.remove(i) =~= sel);
                },
                Err(_) => {},
            }
        },
    }
}

/// Cutting splits the keyframes in two: those the selection holds go to the
/// clipboard and the others stay, together exactly the keyframes there were.
pub proof fn lemma_cut_splits<F, V>(kfs: Seq<KeyframeModel<F, V>>, sel: Seq<u128>)
    requires
        strictly_sorted(sel),
        sel.len() <= usize::MAX,
    ensures
        picked(kfs, sel).to_multiset().add(kept(kfs, sel).to_multiset()) == kfs.to_multiset(),
        forall|i: int| 0 <= i < picked(kfs, sel).len() ==> sel.contains(#[trigger] picked(kfs, sel)[i].uid),
        forall|i: int| 0 <= i < kept(kfs, sel).len() ==> !sel.contains(#[trigger] kept(kfs, sel)[i].uid),
    decreases kfs.len(),
{
    broadcast use vstd::seq_lib::group_to_multiset_ensures;
    broadcast use vstd::multiset::group_multiset_axioms;

    if kfs.len() == 0 {
        assert(picked(kfs, sel) =~= Seq::<KeyframeModel<F, V>>::empty());
        assert(kept(kfs, sel) =~= Seq::<KeyframeModel<F, V>>::empty());
        assert(kfs.to_multiset() =~= Multiset::<KeyframeModel<F, V>>::empty());
        assert(picked(kfs, sel).to_multiset().add(kept(kfs, sel).to_multiset()) =~= kfs.to_multiset());
    } else {
        let head = kfs[0];
        let rest = kfs.drop_first();
        lemma_cut_splits(rest, sel);
        lemma_search_sorted(sel, head.uid);
        assert(kfs =~= seq![head] + rest);
        vstd::seq_lib::lemma_multiset_commutative(seq![head], rest);
        if search_result(sel, head.uid) is Ok {
            assert(picked(kfs, sel) =~= seq![head] + picked(rest, sel));
            assert(kept(kfs, sel) =~= kept(rest, sel));
            vstd::seq_lib::lemma_multiset_commutative(seq![head], picked(rest, sel));
            assert(picked(kfs, sel).to_multiset().add(kept(kfs, sel).to_multiset()) =~= kfs.to_multiset());
            assert forall|i: int| 0 <= i < picked(kfs, sel).len() implies sel.contains(
                #[trigger] picked(kfs, sel)[i].uid,
            ) by {
                if i > 0 {
                    assert(picked(kfs, sel)[i] == picked(rest, sel)[i - 1]);
                }
            }
        } else {
            assert(picked(kfs, sel) =~= picked(rest, sel));
            assert(kept(kfs, sel) =~= seq![head] + kept(rest, sel));
            vstd::seq_lib::lemma_multiset_commutative(seq![head], kept(rest, sel));
            assert(picked(kfs, sel).to_multiset().add(kept(kfs, sel).to_multiset()) =~= kfs.to_multiset());
            assert forall|i: int| 0 <= i < kept(kfs, sel).len() implies !sel.contains(
                #[trigger] kept(kfs, sel)[i].uid,
            ) by {
                if i > 0 {
                    assert(kept(kfs, sel)[i] == kept(rest, sel)[i - 1]);
                }
            }
        }
    }
}

/// Releasing a key completes its press: when no press of `k` was pending,
/// the release that follows a press of `k` finds that press, and the
/// pending presses are as before it.
pub proof fn lemma_key_release_completes_press<P>(pending: Seq<(Key, P)>, k: Key, p: P)
    requires
        forall|j: int| 0 <= j < pending.len() ==> pending[j].0 != k,
    ensures
        first_key(pending.push((k, p)), k) == Some(pending.len() as int),
        pending.push((k, p))[pending.len() as int].1 == p,
        pending.push((k, p)).remove(pending.len() as int) == pending,
    decreases pending.len(),
{
    if pending.len() > 0 {
        lemma_key_release_completes_press(pending.drop_first(), k, p);
        assert(pending.push((k, p)).drop_first() =~= pending.drop_first().push((k, p)));
    }
    assert(pending.push((k, p)).remove(pending.len() as int) =~= pending);
}

/// Releasing a mouse button completes its press, as for keys.
pub proof fn lemma_button_release_completes_press<P>(pending: Seq<(Button, P)>, b: Button, p: P)
    requires
        forall|j: int| 0 <= j < pending.len() ==> pending[j].0 != b,
    ensures
        first_button(pending.push((b, p)), b) == Some(pending.len() as int),
        pending.push((b, p))[pending.len() as int].1 == p,
        pending.push((b, p)).remove(pending.len() as int) == pending,
    decreases pending.len(),
{
    if pending.len() > 0 {
        lemma_button_release_completes_press(pending.drop_first(), b, p);
        assert(pending.push((b, p)).drop_first() =~= pending.drop_first().push((b, p)));
    }
    assert(pending.push((b, p)).remove(pending.len() as int) =~= pending);
}

/// While recording, a key press followed by its release records that key:
/// when no press of `k` was pending (and `k` is not F9), the press is kept
/// pending and the release hands it back for the timeline, leaving the
/// pending presses and the countdown as they were. Releasing F8 this way
/// also stops the recording, so the stop key is recorded too.
pub proof fn lemma_key_press_then_release_records<P>(
    keys: Seq<(Key, P)>,
    buttons: Seq<(Button, P)>,
    count: int,
    k: Key,
    p: P,
    resolution: i32,
    moved1: bool,
    moved2: bool,
)
    requires
        k != Key::F9,
        forall|j: int| 0 <= j < keys.len() ==> keys[j].0 != k,
    ensures
        ({
            let s1 = record_step(keys, buttons, count, RecordEvent::KeyPress(k, p), false, true, resolution, moved1);
            let s2 = record_step(s1.0, s1.1, s1.2, RecordEvent::KeyRelease(k), false, s1.3.recording, resolution, moved2);
            &&& s1.3.step is PressStored
            &&& s1.3.recording
            &&& s1.0 == keys.push((k, p))
            &&& s2.3.step == RecordStep::Released(p)
            &&& s2.0 == keys
            &&& s2.1 == buttons
            &&& s2.2 == count
            &&& s2.3.recording == (k != Key::F8)
        }),
{
    lemma_key_release_completes_press(keys, k, p);
}

/// While recording, a mouse button press followed by its release records
/// that button, as for keys.
pub proof fn lemma_button_press_then_release_records<P>(
    keys: Seq<(Key, P)>,
    buttons: Seq<(Button, P)>,
    count: int,
    b: Button,
    p: P,
    resolution: i32,
    moved1: bool,
    moved2: bool,
)
    requires
        forall|j: int| 0 <= j < buttons.len() ==> buttons[j].0 != b,
    ensures
        ({
            let s1 = record_step(keys, buttons, count, RecordEvent::ButtonPress(b, p), false, true, resolution, moved1);
            let s2 = record_step(s1.0, s1.1, s1.2, RecordEvent::ButtonRelease(b), false, s1.3.recording, resolution, moved2);
            &&& s1.3.step is PressStored
            &&& s1.3.recording
            &&& s1.1 == buttons.push((b, p))
            &&& s2.3.step == RecordStep::Released(p)
            &&& s2.0 == keys
            &&& s2.1 == buttons
            &&& s2.2 == count
            &&& s2.3.recording
        }),
{
    lemma_button_release_completes_press(buttons, b, p);
}

/// F8's release toggles recording wherever the focus is; starting a
/// recording forgets pending key presses, restarts the mouse countdown and
/// resets the previous position. Escape's release stops playback and leaves
/// recording as it was.
pub proof fn lemma_f8_toggles_and_escape_stops<P>(
    keys: Seq<(Key, P)>,
    buttons: Seq<(Button, P)>,
    count: int,
    recording: bool,
    resolution: i32,
    moved: bool,
)
    ensures
        ({
            let r = record_step(keys, buttons, count, RecordEvent::<P>::KeyRelease(Key::F8), false, recording, resolution, moved);
            &&& r.3.recording == !recording
            &&& !r.3.stop_playback
            &&& !recording ==> r.0.len() == 0 && r.2 == MOVE_COUNTDOWN && r.3.reset_position && r.3.step is Nothing
        }),
        ({
            let e = record_step(keys, buttons, count, RecordEvent::<P>::KeyRelease(Key::Escape), false, recording, resolution, moved);
            &&& e.3.stop_playback
            &&& e.3.recording == recording
            &&& !e.3.reset_position
        }),
{
}

/// While recording, F9's release asks for a mouse move at the previous
/// position and changes nothing else.
pub proof fn lemma_f9_asks_for_a_manual_move<P>(
    keys: Seq<(Key, P)>,
    buttons: Seq<(Button, P)>,
    count: int,
    resolution: i32,
    moved: bool,
)
    ensures
        ({
            let r = record_step(keys, buttons, count, RecordEvent::<P>::KeyRelease(Key::F9), false, true, resolution, moved);
            &&& r.3.step is ManualMove
            &&& r.0 == keys
            &&& r.1 == buttons
            &&& r.2 == count
            &&& r.3.recording
            &&& !r.3.stop_playback
            &&& !r.3.reset_position
        }),
{
}

/// With a recording resolution of 0 no mouse move is ever recorded, and the
/// countdown stays where it is.
pub proof fn lemma_resolution_zero_records_no_moves<P>(
    keys: Seq<(Key, P)>,
    buttons: Seq<(Button, P)>,
    count: int,
    calibrating: bool,
    recording: bool,
    moved: bool,
)
    ensures
        ({
            let r = record_step(keys, buttons, count, RecordEvent::<P>::MouseMove, calibrating, recording, 0, moved);
            &&& !(r.3.step is MouseMoved)
            &&& r.2 == count
            &&& r.0 == keys
            &&& r.1 == buttons
        }),
{
}

/// While recording, a scroll is recorded exactly when its delta is not zero
/// in both directions: a horizontal, vertical or diagonal scroll gives the
/// scroll step, and only a zero delta gives nothing. The recorder's memory
/// does not change.
pub proof fn lemma_scrolls_are_recorded<P>(
    keys: Seq<(Key, P)>,
    buttons: Seq<(Button, P)>,
    count: int,
    dx: i64,
    dy: i64,
    resolution: i32,
    moved: bool,
)
    ensures
        ({
            let r = record_step(keys, buttons, count, RecordEvent::<P>::Wheel(dx, dy), false, true, resolution, moved);
            &&& (r.3.step is Scrolled) == (dx != 0 || dy != 0)
            &&& (r.3.step is Nothing) == (dx == 0 && dy == 0)
            &&& r.0 == keys
            &&& r.1 == buttons
            &&& r.2 == count
            &&& r.3.recording
        }),
        ({
            let r = record_step(keys, buttons, count, RecordEvent::<P>::Wheel(dx, dy), false, false, resolution, moved);
            r.3.step is Nothing
        }),
{
}

/// While playing, the playhead starts exactly the keyframes it is inside
/// that were not yet under it (idle or selected), and ends exactly those it
/// has left that were under it; the start events are those whose state
/// becomes 1 from another state.
pub proof fn lemma_playhead_starts_entered_keyframes(
    states: Seq<usize>,
    inside: Seq<bool>,
    play: bool,
    i: usize,
)
    requires
        inside.len() == states.len(),
        states.len() <= usize::MAX,
        i < states.len(),
    ensures
        playhead_events(states, inside, play, states.len() as int).contains((i, true)) == (play
            && inside[i as int] && states[i as int] != 1),
        playhead_events(states, inside, play, states.len() as int).contains((i, false)) == (play
            && !inside[i as int] && states[i as int] == 1),
        playhead_events(states, inside, play, states.len() as int).contains((i, true)) == (play
            && playhead_state(states[i as int], inside[i as int]) == 1 && states[i as int] != 1),
        !play ==> playhead_events(states, inside, play, states.len() as int).len() == 0,
{
    lemma_playhead_events_index(states, inside, play, states.len() as int, i);
    if !play {
        lemma_no_events_when_paused(states, inside, states.len() as int);
    }
}

proof fn lemma_playhead_events_index(
    states: Seq<usize>,
    inside: Seq<bool>,
    play: bool,
    n: int,
    i: usize,
)
    requires
        0 <= n <= states.len(),
        n <= inside.len(),
        states.len() <= usize::MAX,
    ensures
        playhead_events(states, inside, play, n).contains((i, true)) == (i < n && play
            && inside[i as int] && states[i as int] != 1),
        playhead_events(states, inside, play, n).contains((i, false)) == (i < n && play
            && !inside[i as int] && states[i as int] == 1),
    decreases n,
{
    if n > 0 {
        lemma_playhead_events_index(states, inside, play, n - 1, i);
        let prev = playhead_events(states, inside, play, n - 1);
        let j = n - 1;
        let e = playhead_events(states, inside, play, n);
        assert((j as usize) as int == j);
        if play && inside[j] && states[j] != 1 {
            assert(e == prev.push((j as usize, true)));
            assert(e[prev.len() as int] == (j as usize, true));
            if prev.contains((i, true)) {
                let k = choose|k: int| 0 <= k < prev.len() && prev[k] == (i, true);
                assert(e[k] == (i, true));
            }
            if prev.contains((i, false)) {
                let k = choose|k: int| 0 <= k < prev.len() && prev[k] == (i, false);
                assert(e[k] == (i, false));
            }
            if e.contains((i, false)) {
                let k = choose|k: int| 0 <= k < e.len() && e[k] == (i, false);
                assert(k < prev.len());
                assert(prev[k] == (i, false));
            }
            if e.contains((i, true)) && i != j {
                let k = choose|k: int| 0 <= k < e.len() && e[k] == (i, true);
                assert(k < prev.len());
                assert(prev[k] == (i, true));
            }
        } else if play && !inside[j] && states[j] == 1 {
            assert(e == prev.push((j as usize, false)));
            assert(e[prev.len() as int] == (j as usize, false));
            if prev.contains((i, true)) {
                let k = choose|k: int| 0 <= k < prev.len() && prev[k] == (i, true);
                assert(e[k] == (i, true));
            }
            if prev.contains((i, false)) {
                let k = choose|k: int| 0 <= k < prev.len() && prev[k] == (i, false);
                assert(e[k] == (i, false));
            }
            if e.contains((i, true)) {
                let k = choose|k: int| 0 <= k < e.len() && e[k] == (i, true);
                assert(k < prev.len());
                assert(prev[k] == (i, true));
            }
            if e.contains((i, false)) && i != j {
                let k = choose|k: int| 0 <= k < e.len() && e[k] == (i, false);
                assert(k < prev.len());
                assert(prev[k] == (i, false));
            }
        } else {
            assert(e == prev);
        }
    }
}

proof fn lemma_no_events_when_paused(states: Seq<usize>, inside: Seq<bool>, n: int)
    ensures
        playhead_events(states, inside, false, n).len() == 0,
    decreases n,
{
    if n > 0 {
        lemma_no_events_when_paused(states, inside, n - 1);
    }
}

/// Starting a drag on a selected keyframe leaves the selection as it was,
/// with or without ctrl, so every selected keyframe is dragged. Starting it
/// on an unselected keyframe selects only that one, or adds it with ctrl.
pub proof fn lemma_drag_start_keeps_a_selection(sel: Seq<u128>, uid: u128, ctrl: bool)
    requires
        strictly_sorted(sel),
        sel.len() <= usize::MAX,
    ensures
        sel.contains(uid) ==> drag_start_result(sel, uid, ctrl) == sel,
        !sel.contains(uid) && !ctrl ==> drag_start_result(sel, uid, ctrl) == seq![uid],
        !sel.contains(uid) && ctrl ==> {
            &&& strictly_sorted(drag_start_result(sel, uid, ctrl))
            &&& forall|x: u128| #[trigger]
                drag_start_result(sel, uid, ctrl).contains(x) <==> (x == uid || sel.contains(x))
        },
{
    lemma_search_sorted(sel, uid);
    if !sel.contains(uid) && ctrl {
        let i = search_result(sel, uid)->Err_0 as int;
        let r = sel.insert(i, uid);
        assert forall|x: u128| #[trigger] r.contains(x) <==> (x == uid || sel.contains(x)) by {
            if r.contains(x) {
                let k = choose|k: int| 0 <= k < r.len() && r[k] == x;
                if k < i {
                    assert(sel[k] == x);
                } else if k > i {
                    assert(sel[k - 1] == x);
                }
            }
            if x == uid {
                assert(r[i] == uid);
            }
            if sel.contains(x) {
                let k = choose|k: int| 0 <= k < sel.len() && sel[k] == x;
                if k < i {
                    assert(r[k] == x);
                } else {
                    assert(r[k + 1] == x);
                }
            }
        }
    }
}

/// A plain click leaves exactly the clicked keyframe selected, whatever was
/// selected before.
pub proof fn lemma_plain_click_selects_only_it(sel: Seq<u128>, uid: u128)
    ensures
        click_result(sel, uid, false) == seq![uid],
{
}

/// With ctrl held, each of S, N, O, Z, Y and comma asks for its own file or
/// window command (SaveFile, NewFile, OpenFile, Undo, Redo,
/// ToggleSettings), the first pressed in that order coming first; without
/// ctrl, right arrow, space, left arrow and F8 ask for StepTime,
/// TogglePlay, ResetTime and ToggleRecording in that priority.
pub proof fn lemma_shortcut_keys_map_to_their_commands(shift: bool, p: KeysPressed)
    ensures
        p.s ==> commands_for(true, shift, p)[0] == Command::SaveFile,
        !p.s && p.n ==> commands_for(true, shift, p)[0] == Command::NewFile,
        !p.s && !p.n && p.o ==> commands_for(true, shift, p)[0] == Command::OpenFile,
        !p.s && !p.n && !p.o && p.z ==> commands_for(true, shift, p)[0] == Command::Undo,
        !p.s && !p.n && !p.o && !p.z && p.y ==> commands_for(true, shift, p)[0] == Command::Redo,
        !p.s && !p.n && !p.o && !p.z && !p.y && p.comma ==> commands_for(true, shift, p)[0]
            == Command::ToggleSettings,
        (p.s || p.n || p.o || p.z || p.y || p.comma) ==> commands_for(true, shift, p).len() >= 1,
        !(p.s || p.n || p.o || p.z || p.y || p.comma) ==> commands_for(true, shift, p) == (if p.arrow_right {
            seq![Command::NextKeyframe(shift)]
        } else {
            Seq::empty()
        }) + (if p.arrow_left {
            seq![Command::PreviousKeyframe(shift)]
        } else {
            Seq::empty()
        }),
        p.arrow_right ==> commands_for(false, shift, p) == seq![Command::StepTime],
        !p.arrow_right && p.space ==> commands_for(false, shift, p) == seq![Command::TogglePlay],
        !p.arrow_right && !p.space && p.arrow_left ==> commands_for(false, shift, p) == seq![
            Command::ResetTime,
        ],
        !p.arrow_right && !p.space && !p.arrow_left && p.f8_released ==> commands_for(false, shift, p)
            == seq![Command::ToggleRecording],
        !p.arrow_right && !p.space && !p.arrow_left && !p.f8_released ==> commands_for(false, shift, p).len()
            == 0,
{
    let c = commands_for(true, shift, p);
    if !(p.s || p.n || p.o || p.z || p.y || p.comma) {
        assert(c =~= (if p.arrow_right {
            seq![Command::NextKeyframe(shift)]
        } else {
            Seq::empty()
        }) + (if p.arrow_left {
            seq![Command::PreviousKeyframe(shift)]
        } else {
            Seq::empty()
        }));
    }
}

/// Pasting never takes a screenshot away: every identifier that had one
/// keeps the same bytes, unless it is one of the identifiers drawn for the
/// pasted keyframes.
pub proof fn lemma_paste_keeps_screenshots(
    m: Map<u128, Seq<u8>>,
    from: Seq<u128>,
    to: Seq<u128>,
    n: int,
    u: u128,
)
    requires
        0 <= n <= to.len(),
        n <= from.len(),
        m.contains_key(u),
        forall|t: int| 0 <= t < n ==> to[t] != u,
    ensures
        pasted_images(m, from, to, n).contains_key(u),
        pasted_images(m, from, to, n)[u] == m[u],
    decreases n,
{
    if n > 0 {
        lemma_paste_keeps_screenshots(m, from, to, n - 1, u);
    }
}

/// Each pasted keyframe gets a copy of its original's screenshot, when the
/// original had one that no pasted identifier replaced and no later pasted
/// keyframe drew the same identifier.
pub proof fn lemma_paste_copies_screenshots(
    m: Map<u128, Seq<u8>>,
    from: Seq<u128>,
    to: Seq<u128>,
    n: int,
    t: int,
)
    requires
        0 <= t < n <= to.len(),
        n <= from.len(),
        m.contains_key(from[t]),
        forall|s: int| 0 <= s < n ==> to[s] != from[t],
        forall|s: int| t < s < n ==> to[s] != to[t],
    ensures
        pasted_images(m, from, to, n).contains_key(to[t]),
        pasted_images(m, from, to, n)[to[t]] == m[from[t]],
    decreases n,
{
    if t == n - 1 {
        lemma_paste_keeps_screenshots(m, from, to, n - 1, from[t]);
    } else {
        lemma_paste_copies_screenshots(m, from, to, n - 1, t);
    }
}

/// While recording, mouse moves are sampled: a move to the same place is
/// never recorded; with a nonzero resolution each move counts down, and a
/// move to a new place is recorded when the countdown reaches 0, restarting
/// it at the resolution. While calibrating every move is a calibration
/// sample and nothing else counts.
pub proof fn lemma_mouse_moves_are_sampled<P>(
    keys: Seq<(Key, P)>,
    buttons: Seq<(Button, P)>,
    count: int,
    resolution: i32,
    moved: bool,
    recording: bool,
)
    ensures
        ({
            let r = record_step(keys, buttons, count, RecordEvent::<P>::MouseMove, false, true, resolution, moved);
            &&& r.0 == keys
            &&& r.1 == buttons
            &&& !moved ==> !(r.3.step is MouseMoved)
            &&& resolution != 0 && moved && count <= 1 ==> r.3.step is MouseMoved && r.2 == resolution
            &&& resolution != 0 && !(moved && count <= 1) ==> r.3.step is Nothing && r.2 == count - 1
        }),
        ({
            let r = record_step(keys, buttons, count, RecordEvent::<P>::MouseMove, true, recording, resolution, moved);
            &&& r.3.step is CalibrationSample
            &&& r.3.recording == recording
            &&& r.0 == keys && r.1 == buttons && r.2 == count
        }),
        ({
            let r = record_step(keys, buttons, count, RecordEvent::<P>::Wheel(1, 1), true, recording, resolution, moved);
            r.3.step is Nothing && r.3.recording == recording
        }),
{
}

/// Dragging a selection rectangle over a keyframe selects it; leaving the
/// rectangle deselects it unless ctrl is held, when the selection stays as
/// it was. Every other keyframe keeps its selection, and the selection stays
/// in ascending order.
pub proof fn lemma_drag_select_membership(sel: Seq<u128>, uid: u128, inside: bool, ctrl: bool)
    requires
        strictly_sorted(sel),
        sel.len() <= usize::MAX,
    ensures
        strictly_sorted(drag_select_result(sel, uid, inside, ctrl)),
        !inside && ctrl ==> drag_select_result(sel, uid, inside, ctrl) == sel,
        forall|x: u128| #[trigger]
            drag_select_result(sel, uid, inside, ctrl).contains(x) <==> if x == uid {
                inside || (ctrl && sel.contains(uid))
            } else {
                sel.contains(x)
            },
{
    lemma_search_sorted(sel, uid);
    let r = drag_select_result(sel, uid, inside, ctrl);
    match search_result(sel, uid) {
        Ok(i) => {
            let i = i as int;
            if !inside && !ctrl {
                assert(r == sel.remove(i));
                assert forall|x: u128| #[trigger] r.contains(x) <==> if x == uid {
                    false
                } else {
                    sel.contains(x)
                } by {
                    if r.contains(x) {
                        let k = choose|k: int| 0 <= k < r.len() && r[k] == x;
                        if k < i {
                            assert(sel[k] == x);
                        } else {
                            assert(sel[k + 1] == x);
                        }
                    }
                    if sel.contains(x) && x != uid {
                        let k = choose|k: int| 0 <= k < sel.len() && sel[k] == x;
                        if k < i {
                            assert(r[k] == x);
                        } else {
                            assert(k != i);
                            assert(r[k - 1] == x);
                        }
                    }
                }
            }
        },
        Err(i) => {
            let i = i as int;
            if inside {
                assert(r == sel.insert(i, uid));
                assert forall|x: u128| #[trigger] r.contains(x) <==> (x == uid || sel.contains(x)) by {
                    if r.contains(x) {
                        let k = choose|k: int| 0 <= k < r.len() && r[k] == x;
                        if k < i {
                            assert(sel[k] == x);
                        } else if k > i {
                            assert(sel[k - 1] == x);
                        }
                    }
                    if x == uid {
                        assert(r[i] == uid);
                    }
                    if sel.contains(x) {
                        let k = choose|k: int| 0 <= k < sel.len() && sel[k] == x;
                        if k < i {
                            assert(r[k] == x);
                        } else {
                            assert(r[k + 1] == x);
                        }
                    }
                }
            }
        },
    }
}

/// Pasted keyframes are the clipboard's keyframes in order, each with the
/// same time, length, type and kind, under the identifier drawn for it.
pub proof fn lemma_pasted_keyframes_are_copies<F, V>(clip: Seq<KeyframeModel<F, V>>, uids: Seq<u128>)
    requires
        uids.len() == clip.len(),
    ensures
        renamed(clip, uids).len() == clip.len(),
        forall|j: int| #![trigger renamed(clip, uids)[j]] 0 <= j < clip.len() ==> {
            &&& renamed(clip, uids)[j].uid == uids[j]
            &&& renamed(clip, uids)[j].timestamp == clip[j].timestamp
            &&& renamed(clip, uids)[j].duration == clip[j].duration
            &&& renamed(clip, uids)[j].keyframe_type == clip[j].keyframe_type
            &&& renamed(clip, uids)[j].kind == clip[j].kind
        },
{
}

/// Keyboard navigation from the keyframe the last selected identifier first
/// names, at index `a`: ctrl+right goes to the keyframe after it (staying on
/// the last one), ctrl+left to the one before it (staying on the first);
/// with shift the keyframe joins the selection, otherwise it is selected
/// alone.
pub proof fn lemma_navigation_moves_by_one(uids: Seq<u128>, sel: Seq<u128>, a: int)
    requires
        sel.len() > 0,
        0 <= a < uids.len(),
        uids[a] == sel.last(),
        forall|b: int| 0 <= b < a ==> uids[b] != sel.last(),
    ensures
        next_index(uids, sel) == if a + 1 < uids.len() {
            a + 1
        } else {
            a
        },
        previous_index(uids, sel) == if a > 0 {
            a - 1
        } else {
            0
        },
        navigated(uids, sel, next_index(uids, sel), false) == seq![uids[next_index(uids, sel)]],
{
    lemma_first_index(uids, sel.last(), a);
}

/// Playing a keyframe back presses its key or button when the playhead
/// enters it and releases the same key or button when it leaves; moves,
/// scrolls and waits act once, at the start, and do nothing at the end.
pub proof fn lemma_playback_presses_then_releases<F, V>(t: KeyframeTypeModel<F, V>)
    ensures
        t matches KeyframeTypeModel::KeyBtn(k) ==> action_for(t, true) == PlaybackAction::<F, V>::PressKey(k)
            && action_for(t, false) == PlaybackAction::<F, V>::ReleaseKey(k),
        t matches KeyframeTypeModel::MouseBtn(b) ==> action_for(t, true) == PlaybackAction::<F, V>::PressButton(b)
            && action_for(t, false) == PlaybackAction::<F, V>::ReleaseButton(b),
        t matches KeyframeTypeModel::MouseMove(p) ==> action_for(t, true) == PlaybackAction::<F, V>::MoveMouse(p),
        t matches KeyframeTypeModel::Scroll(d) ==> action_for(t, true) == PlaybackAction::<F, V>::Scroll(d),
        t matches KeyframeTypeModel::Wait(w) ==> action_for(t, true) == PlaybackAction::<F, V>::Sleep(w),
        !(t is KeyBtn || t is MouseBtn) ==> action_for(t, false) is Nothing,
{
}

} // verus!
