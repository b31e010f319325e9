use vstd::prelude::*;
use std::collections::HashMap;
use crate::keyframe::{Keyframe, KeyframeModel, KeyframeType, KeyframeTypeModel};
use crate::keys::{Button, Key};
use crate::archive::{entries_parse, parse_image_key, parsed_image_key, with_images};
use crate::selection::{
    first_index_or_zero, last_index_or_zero, lemma_first_index, lemma_first_index_range,
    lemma_last_index_range, lemma_search_sorted, search, search_result, strictly_sorted,
};

verus! {

broadcast use vstd::std_specs::hash::group_hash_axioms;

/// Identifiers of a sequence of keyframes.
pub open spec fn uids_of<F, V>(kfs: Seq<KeyframeModel<F, V>>) -> Seq<u128> {
    kfs.map_values(|k: KeyframeModel<F, V>| k.uid)
}

/// Whether a search of the selection finds `uid`; on a selection in
/// ascending order this is membership (`lemma_search_sorted`).
pub open spec fn is_selected(sel: Seq<u128>, uid: u128) -> bool {
    search_result(sel, uid) is Ok
}

/// Selection after a click on keyframe `uid`: a plain click leaves only
/// that keyframe selected, whether or not it was selected before; a
/// ctrl-click toggles it.
pub open spec fn click_result(sel: Seq<u128>, uid: u128, ctrl: bool) -> Seq<u128> {
    match search_result(sel, uid) {
        Ok(i) => if ctrl {
            sel.remove(i as int)
        } else {
            seq![uid]
        },
        Err(i) => if ctrl {
            sel.insert(i as int, uid)
        } else {
            seq![uid]
        },
    }
}

/// Selection when dragging keyframe `uid` starts: an unselected keyframe
/// becomes the only one dragged, or joins the selection with ctrl.
pub open spec fn drag_start_result(sel: Seq<u128>, uid: u128, ctrl: bool) -> Seq<u128> {
    match search_result(sel, uid) {
        Ok(_) => sel,
        Err(i) => if ctrl {
            sel.insert(i as int, uid)
        } else {
            seq![uid]
        },
    }
}

/// Selection with `uid` added in order, unless it is found already.
pub open spec fn with_selected(sel: Seq<u128>, uid: u128) -> Seq<u128> {
    match search_result(sel, uid) {
        Ok(_) => sel,
        Err(i) => sel.insert(i as int, uid),
    }
}

/// Selection while a selection rectangle is dragged over keyframe `uid`:
/// inside, the keyframe joins; outside, it leaves unless ctrl is held.
pub open spec fn drag_select_result(sel: Seq<u128>, uid: u128, inside: bool, ctrl: bool) -> Seq<
    u128,
> {
    if inside {
        with_selected(sel, uid)
    } else if ctrl {
        sel
    } else {
        match search_result(sel, uid) {
            Ok(i) => sel.remove(i as int),
            Err(_) => sel,
        }
    }
}

/// The keyframes whose identifier the selection search finds, in order.
pub open spec fn picked<F, V>(kfs: Seq<KeyframeModel<F, V>>, sel: Seq<u128>) -> Seq<
    KeyframeModel<F, V>,
>
    decreases kfs.len(),
{
    if kfs.len() == 0 {
        Seq::empty()
    } else {
        (if is_selected(sel, kfs[0].uid) {
            seq![kfs[0]]
        } else {
            Seq::empty()
        }) + picked(kfs.drop_first(), sel)
    }
}

/// The keyframes whose identifier the selection search does not find, in
/// order.
pub open spec fn kept<F, V>(kfs: Seq<KeyframeModel<F, V>>, sel: Seq<u128>) -> Seq<
    KeyframeModel<F, V>,
>
    decreases kfs.len(),
{
    if kfs.len() == 0 {
        Seq::empty()
    } else {
        (if !is_selected(sel, kfs[0].uid) {
            seq![kfs[0]]
        } else {
            Seq::empty()
        }) + kept(kfs.drop_first(), sel)
    }
}

/// The states of the keyframes that `kept` keeps.
pub open spec fn kept_states(uids: Seq<u128>, states: Seq<usize>, sel: Seq<u128>) -> Seq<usize>
    decreases uids.len(),
{
    if uids.len() == 0 || states.len() == 0 {
        Seq::empty()
    } else {
        (if !is_selected(sel, uids[0]) {
            seq![states[0]]
        } else {
            Seq::empty()
        }) + kept_states(uids.drop_first(), states.drop_first(), sel)
    }
}

proof fn lemma_picked_append<F, V>(
    a: Seq<KeyframeModel<F, V>>,
    b: Seq<KeyframeModel<F, V>>,
    sel: Seq<u128>,
)
    ensures
        picked(a + b, sel) == picked(a, sel) + picked(b, sel),
    decreases a.len(),
{
    if a.len() == 0 {
        assert(a + b =~= b);
        assert(picked(a, sel) + picked(b, sel) =~= picked(b, sel));
    } else {
        lemma_picked_append(a.drop_first(), b, sel);
        assert((a + b).drop_first() =~= a.drop_first() + b);
        let head: Seq<KeyframeModel<F, V>> = if is_selected(sel, a[0].uid) {
            seq![a[0]]
        } else {
            Seq::empty()
        };
        assert(picked(a + b, sel) == head + picked((a + b).drop_first(), sel));
        assert(head + (picked(a.drop_first(), sel) + picked(b, sel)) =~= (head + picked(
            a.drop_first(),
            sel,
        )) + picked(b, sel));
    }
}

proof fn lemma_kept_len<F, V>(kfs: Seq<KeyframeModel<F, V>>, states: Seq<usize>, sel: Seq<u128>)
    requires
        states.len() == kfs.len(),
    ensures
        kept_states(uids_of(kfs), states, sel).len() == kept(kfs, sel).len(),
    decreases kfs.len(),
{
    if kfs.len() > 0 {
        assert(uids_of(kfs).drop_first() =~= uids_of(kfs.drop_first()));
        lemma_kept_len(kfs.drop_first(), states.drop_first(), sel);
    }
}

/// A keyframe with its identifier replaced.
pub open spec fn with_uid<F, V>(k: KeyframeModel<F, V>, uid: u128) -> KeyframeModel<F, V> {
    KeyframeModel {
        timestamp: k.timestamp,
        duration: k.duration,
        keyframe_type: k.keyframe_type,
        kind: k.kind,
        uid,
    }
}

/// The clipboard's keyframes under new identifiers, in order.
pub open spec fn renamed<F, V>(clip: Seq<KeyframeModel<F, V>>, uids: Seq<u128>) -> Seq<
    KeyframeModel<F, V>,
> {
    Seq::new(clip.len(), |j: int| with_uid(clip[j], uids[j]))
}

/// Screenshots after pasting the first `n` clipboard keyframes: each new
/// identifier gets a copy of the screenshot its original has at that point.
pub open spec fn pasted_images(
    m: Map<u128, Seq<u8>>,
    from: Seq<u128>,
    to: Seq<u128>,
    n: int,
) -> Map<u128, Seq<u8>>
    decreases n,
{
    if n <= 0 {
        m
    } else {
        let prev = pasted_images(m, from, to, n - 1);
        if prev.contains_key(from[n - 1]) {
            prev.insert(to[n - 1], prev[from[n - 1]])
        } else {
            prev
        }
    }
}

proof fn lemma_pasted_images_agree(
    m: Map<u128, Seq<u8>>,
    from: Seq<u128>,
    to1: Seq<u128>,
    to2: Seq<u128>,
    n: int,
)
    requires
        0 <= n <= to1.len(),
        n <= to2.len(),
        forall|t: int| 0 <= t < n ==> to1[t] == to2[t],
    ensures
        pasted_images(m, from, to1, n) == pasted_images(m, from, to2, n),
    decreases n,
{
    if n > 0 {
        lemma_pasted_images_agree(m, from, to1, to2, n - 1);
    }
}

/// A play state of 0 for each of `n` keyframes.
pub open spec fn idle_states(n: nat) -> Seq<usize> {
    Seq::new(n, |j: int| 0usize)
}

/// Keyframes, states and clipboard after the context menu's cut has taken
/// the identifiers `uids` in turn: each one removes the first keyframe with
/// that identifier and copies it to the clipboard, or, when there is none,
/// removes the first keyframe without copying it.
pub open spec fn menu_cut_run<F, V>(
    kfs: Seq<KeyframeModel<F, V>>,
    states: Seq<usize>,
    uids: Seq<u128>,
) -> (Seq<KeyframeModel<F, V>>, Seq<usize>, Seq<KeyframeModel<F, V>>)
    decreases uids.len(),
{
    if uids.len() == 0 {
        (kfs, states, Seq::empty())
    } else {
        let prev = menu_cut_run(kfs, states, uids.drop_last());
        let u = uids.last();
        let i = first_index_or_zero(uids_of(prev.0), u);
        let clip = if uids_of(prev.0).contains(u) {
            prev.2.push(prev.0[i])
        } else {
            prev.2
        };
        (prev.0.remove(i), prev.1.remove(i), clip)
    }
}

/// Keyframes and states after deleting the identifiers `uids` in turn, each
/// removing the first keyframe with that identifier (the first keyframe
/// when there is none), with the index removed last.
pub open spec fn delete_run<F, V>(
    kfs: Seq<KeyframeModel<F, V>>,
    states: Seq<usize>,
    uids: Seq<u128>,
) -> (Seq<KeyframeModel<F, V>>, Seq<usize>, int)
    decreases uids.len(),
{
    if uids.len() == 0 {
        (kfs, states, 0)
    } else {
        let prev = delete_run(kfs, states, uids.drop_last());
        let i = first_index_or_zero(uids_of(prev.0), uids.last());
        (prev.0.remove(i), prev.1.remove(i), i)
    }
}

/// Identifiers in descending order.
pub open spec fn sorted_desc(v: Seq<u128>) -> bool {
    forall|i: int, j: int| 0 <= i < j < v.len() ==> v[i] >= v[j]
}

/// The selection left after a deletion: the keyframe now at the index
/// removed last, or the one before when that index is past the end.
pub open spec fn after_delete_selection<F, V>(kfs: Seq<KeyframeModel<F, V>>, last: int) -> Seq<
    u128,
> {
    if last == kfs.len() {
        seq![kfs[last - 1].uid]
    } else {
        seq![kfs[last].uid]
    }
}

/// Sorts identifiers with `slice::sort`, which std documents to sort in
/// ascending order; the contract claims that and that the same identifiers
/// remain.
#[verifier::external_body]
fn sort_uids(v: &mut Vec<u128>)
    ensures
        final(v)@.to_multiset() == old(v)@.to_multiset(),
        forall|i: int, j: int| 0 <= i < j < final(v)@.len() ==> final(v)@[i] <= final(v)@[j],
{
    v.sort();
}

/// The identifiers of `v` from last to first.
fn reversed(v: &Vec<u128>) -> (r: Vec<u128>)
    ensures
        r@ == v@.reverse(),
{
    let mut r: Vec<u128> = Vec::new();
    let mut i: usize = v.len();
    while i > 0
        invariant
            i <= v@.len(),
            r@ == v@.skip(i as int).reverse(),
        decreases i,
    {
        i = i - 1;
        r.push(v[i]);
        assert(v@.skip(i as int) =~= seq![v@[i as int]] + v@.skip(i + 1));
        assert(r@ =~= v@.skip(i as int).reverse());
    }
    assert(v@.skip(0) =~= v@);
    r
}

/// Play states after the selection is marked: every state 2 is cleared,
/// then each selected identifier marks the first keyframe with that
/// identifier (the first keyframe when there is none) with state 2.
pub open spec fn marked_states(states: Seq<usize>, uids: Seq<u128>, sel: Seq<u128>) -> Seq<usize> {
    Seq::new(
        states.len(),
        |j: int|
            if exists|t: int| 0 <= t < sel.len() && first_index_or_zero(uids, sel[t]) == j {
                2usize
            } else if states[j] == 2 {
                0usize
            } else {
                states[j]
            },
    )
}

/// Play states with every state 2 cleared.
pub open spec fn unmarked(states: Seq<usize>) -> Seq<usize> {
    Seq::new(
        states.len(),
        |j: int|
            if states[j] == 2 {
                0usize
            } else {
                states[j]
            },
    )
}

/// Play state of a keyframe after the playhead moves: 1 while the playhead
/// is inside it; a playing keyframe it has left goes back to 0.
pub open spec fn playhead_state(s: usize, inside: bool) -> usize {
    if inside {
        1
    } else if s == 1 {
        0
    } else {
        s
    }
}

/// Start (`true`) and end (`false`) events of the first `n` keyframes when
/// the playhead moves while playing: a keyframe starts when the playhead
/// enters it and ends when the playhead leaves it.
pub open spec fn playhead_events(states: Seq<usize>, inside: Seq<bool>, play: bool, n: int) -> Seq<
    (usize, bool),
>
    decreases n,
{
    if n <= 0 {
        Seq::empty()
    } else {
        let prev = playhead_events(states, inside, play, n - 1);
        let i = n - 1;
        if play && inside[i] && states[i] != 1 {
            prev.push((i as usize, true))
        } else if play && !inside[i] && states[i] == 1 {
            prev.push((i as usize, false))
        } else {
            prev
        }
    }
}

/// The last index with state 2, if any.
pub open spec fn last_marked(states: Seq<usize>) -> Option<int>
    decreases states.len(),
{
    if states.len() == 0 {
        None
    } else if states.last() == 2 {
        Some(states.len() - 1)
    } else {
        last_marked(states.drop_last())
    }
}

/// Whether a keyframe is the input that stopped a recording: F8, or a left
/// click on the stop button.
pub open spec fn is_record_stop_keyframe<F, V>(t: KeyframeTypeModel<F, V>) -> bool {
    ||| t == KeyframeTypeModel::<F, V>::KeyBtn(Key::F8)
    ||| t == KeyframeTypeModel::<F, V>::MouseBtn(Button::Left)
}

/// Whether `order` lists each of `0..n` once.
pub open spec fn is_permutation(order: Seq<usize>, n: nat) -> bool {
    &&& order.len() == n
    &&& forall|i: int| 0 <= i < n ==> order[i] < n
    &&& forall|i: int, j: int| 0 <= i < j < n ==> order[i] != order[j]
}

/// Index of the keyframe that ctrl+right selects: the one after the first
/// keyframe carrying the last selected identifier (that keyframe itself at
/// the end), or the first keyframe when nothing is selected.
pub open spec fn next_index(uids: Seq<u128>, sel: Seq<u128>) -> int {
    if sel.len() > 0 {
        let at = first_index_or_zero(uids, sel.last());
        if uids.len() > at + 1 {
            at + 1
        } else {
            at
        }
    } else {
        0
    }
}

/// Index of the keyframe that ctrl+left selects: the one before the first
/// keyframe carrying the last selected identifier, or the first keyframe.
pub open spec fn previous_index(uids: Seq<u128>, sel: Seq<u128>) -> int {
    let at = first_index_or_zero(uids, sel.last());
    if at > 0 {
        at - 1
    } else {
        0
    }
}

/// Selection after keyboard navigation to the keyframe at `index`: with
/// shift it joins the selection, otherwise it is selected alone.
pub open spec fn navigated(uids: Seq<u128>, sel: Seq<u128>, index: int, shift: bool) -> Seq<u128> {
    if shift {
        with_selected(sel, uids[index])
    } else {
        seq![uids[index]]
    }
}

/// A keyframe with its time and length replaced.
pub open spec fn with_timing<F, V>(k: KeyframeModel<F, V>, timestamp: F, duration: F) -> KeyframeModel<
    F,
    V,
> {
    KeyframeModel {
        timestamp,
        duration,
        keyframe_type: k.keyframe_type,
        kind: k.kind,
        uid: k.uid,
    }
}

/// Whether `order` lists each of `0..n` once.
fn lists_each_index_once(order: &Vec<usize>, n: usize) -> (r: bool)
    ensures
        r == is_permutation(order@, n as nat),
{
    if order.len() != n {
        return false;
    }
    let mut seen: Vec<bool> = Vec::new();
    let mut i: usize = 0;
    while i < n
        invariant
            i <= n,
            seen@.len() == i,
            forall|j: int| 0 <= j < i ==> !seen@[j],
        decreases n - i,
    {
        seen.push(false);
        i = i + 1;
    }
    let mut i: usize = 0;
    while i < n
        invariant
            i <= n,
            order@.len() == n,
            seen@.len() == n,
            forall|j: int| 0 <= j < i ==> order@[j] < n,
            forall|j: int, k: int| 0 <= j < k < i ==> order@[j] != order@[k],
            forall|v: int| 0 <= v < n ==> (seen@[v] <==> exists|j: int| 0 <= j < i && order@[j] == v),
        decreases n - i,
    {
        let o: usize = order[i];
        if o >= n || seen[o] {
            proof {
                if o < n {
                    let j = choose|j: int| 0 <= j < i && order@[j] == o;
                    assert(order@[j] == order@[i as int]);
                }
            }
            return false;
        }
        seen.set(o, true);
        proof {
            assert forall|v: int| 0 <= v < n implies (seen@[v] <==> exists|j: int|
                0 <= j < i + 1 && order@[j] == v) by {
                if v == o {
                    assert(order@[i as int] == v);
                }
            }
        }
        i = i + 1;
    }
    true
}

/// The editing state of the sequencer: keyframes with their play states, selection, clipboard
/// and screenshots. State 0 is idle, 1 playing, 2 selected.
pub struct Sequencer<F, V> {
    keyframes: Vec<Keyframe<F, V>>,
    keyframe_state: Vec<usize>,
    selected_keyframes: Vec<u128>,
    clip_board: Vec<Keyframe<F, V>>,
    images: HashMap<u128, Vec<u8>>,
    changed: bool,
    should_sort: bool,
}

impl<F: Copy, V: Copy> Sequencer<F, V> {
    /// The keyframes, in order.
    pub closed spec fn kfs(&self) -> Seq<KeyframeModel<F, V>> {
        self.keyframes@.map_values(|k: Keyframe<F, V>| k@)
    }

    /// The play state of each keyframe.
    pub closed spec fn states(&self) -> Seq<usize> {
        self.keyframe_state@
    }

    /// Identifiers of the selected keyframes.
    pub closed spec fn selection(&self) -> Seq<u128> {
        self.selected_keyframes@
    }

    /// The keyframes last copied or cut.
    pub closed spec fn clip(&self) -> Seq<KeyframeModel<F, V>> {
        self.clip_board@.map_values(|k: Keyframe<F, V>| k@)
    }

    /// Screenshot bytes by keyframe identifier.
    pub closed spec fn image_map(&self) -> Map<u128, Seq<u8>> {
        Map::new(|u: u128| self.images@.contains_key(u), |u: u128| self.images@[u]@)
    }

    /// Whether there are edits not yet saved.
    pub closed spec fn is_changed(&self) -> bool {
        self.changed
    }

    /// Whether the keyframes are to be put back in time order.
    pub closed spec fn sort_requested(&self) -> bool {
        self.should_sort
    }

    /// Every keyframe has a play state, the two sequences staying in step,
    /// and every play state is 0 (idle), 1 (under the playhead) or 2
    /// (selected).
    pub open spec fn wf(&self) -> bool {
        &&& self.states().len() == self.kfs().len()
        &&& forall|i: int| 0 <= i < self.states().len() ==> #[trigger] self.states()[i] <= 2
    }

    /// Everything but the selection is as in `other`.
    pub open spec fn same_but_selection(&self, other: &Self) -> bool {
        &&& self.kfs() == other.kfs()
        &&& self.states() == other.states()
        &&& self.clip() == other.clip()
        &&& self.image_map() == other.image_map()
        &&& self.is_changed() == other.is_changed()
        &&& self.sort_requested() == other.sort_requested()
    }

    /// Everything but the keyframes and their states is as in `other`.
    pub open spec fn same_but_keyframes(&self, other: &Self) -> bool {
        &&& self.selection() == other.selection()
        &&& self.clip() == other.clip()
        &&& self.image_map() == other.image_map()
        &&& self.is_changed() == other.is_changed()
        &&& self.sort_requested() == other.sort_requested()
    }

    /// An empty timeline.
    pub fn new() -> (tl: Self)
        ensures
            tl.wf(),
            tl.kfs() == Seq::<KeyframeModel<F, V>>::empty(),
            tl.states() == Seq::<usize>::empty(),
            tl.selection() == Seq::<u128>::empty(),
            tl.clip() == Seq::<KeyframeModel<F, V>>::empty(),
            tl.image_map() == Map::<u128, Seq<u8>>::empty(),
            !tl.is_changed(),
            !tl.sort_requested(),
    {
        let tl = Sequencer {
            keyframes: Vec::new(),
            keyframe_state: Vec::new(),
            selected_keyframes: Vec::new(),
            clip_board: Vec::new(),
            images: HashMap::new(),
            changed: false,
            should_sort: false,
        };
        assert(tl.kfs() =~= Seq::<KeyframeModel<F, V>>::empty());
        assert(tl.clip() =~= Seq::<KeyframeModel<F, V>>::empty());
        assert(tl.image_map() =~= Map::<u128, Seq<u8>>::empty());
        tl
    }

    /// Selects every keyframe, appending their identifiers to the selection.
    pub fn select_all(&mut self)
        requires
            old(self).wf(),
        ensures
            final(self).wf(),
            final(self).selection() == old(self).selection() + uids_of(old(self).kfs()),
            final(self).same_but_selection(old(self)),
    {
        let ghost start = self.selected_keyframes@;
        let mut i: usize = 0;
        while i < self.keyframes.len()
            invariant
                i <= self.keyframes@.len(),
                self.keyframes == old(self).keyframes,
                self.keyframe_state == old(self).keyframe_state,
                self.clip_board == old(self).clip_board,
                self.images == old(self).images,
                self.changed == old(self).changed,
                self.should_sort == old(self).should_sort,
                self.selected_keyframes@ == start + uids_of(self.kfs()).take(i as int),
            decreases self.keyframes@.len() - i,
        {
            let uid = self.keyframes[i].uid;
            self.selected_keyframes.push(uid);
            i = i + 1;
            assert(self.selected_keyframes@ =~= start + uids_of(self.kfs()).take(i as int));
        }
        assert(uids_of(self.kfs()).take(i as int) =~= uids_of(self.kfs()));
    }

    /// Deselects everything.
    pub fn clear_selection(&mut self)
        requires
            old(self).wf(),
        ensures
            final(self).wf(),
            final(self).selection() == Seq::<u128>::empty(),
            final(self).same_but_selection(old(self)),
    {
        self.selected_keyframes.clear();
    }

    /// Handles a click on the keyframe `uid`, with or without ctrl held.
    pub fn click(&mut self, uid: u128, ctrl: bool)
        requires
            old(self).wf(),
        ensures
            final(self).wf(),
            final(self).selection() == click_result(old(self).selection(), uid, ctrl),
            final(self).same_but_selection(old(self)),
            strictly_sorted(old(self).selection()) ==> strictly_sorted(final(self).selection()),
    {
        proof {
            if strictly_sorted(self.selected_keyframes@) {
                assert(self.selected_keyframes.len() == self.selected_keyframes@.len());
                lemma_search_sorted(self.selected_keyframes@, uid);
            }
        }
        let x = search(&self.selected_keyframes, uid);
        if !ctrl {
            self.selected_keyframes.clear();
        }
        match x {
            Ok(index) => {
                if ctrl {
                    self.selected_keyframes.remove(index);
                } else {
                    self.selected_keyframes.push(uid);
                }
            },
            Err(index) => {
                if !ctrl {
                    self.selected_keyframes.push(uid);
                } else {
                    self.selected_keyframes.insert(index, uid);
                }
            },
        }
        assert(self.selected_keyframes@ =~= click_result(old(self).selected_keyframes@, uid, ctrl));
    }

    /// Handles the start of a drag on the keyframe `uid`.
    pub fn drag_start(&mut self, uid: u128, ctrl: bool)
        requires
            old(self).wf(),
        ensures
            final(self).wf(),
            final(self).selection() == drag_start_result(old(self).selection(), uid, ctrl),
            final(self).same_but_selection(old(self)),
            strictly_sorted(old(self).selection()) ==> strictly_sorted(final(self).selection()),
    {
        proof {
            if strictly_sorted(self.selected_keyframes@) {
                assert(self.selected_keyframes.len() == self.selected_keyframes@.len());
                lemma_search_sorted(self.selected_keyframes@, uid);
            }
        }
        match search(&self.selected_keyframes, uid) {
            Ok(_) => {},
            Err(index) => {
                if !ctrl {
                    self.selected_keyframes = vec![uid];
                } else {
                    self.selected_keyframes.insert(index, uid);
                }
            },
        }
        assert(self.selected_keyframes@ =~= drag_start_result(old(self).selected_keyframes@, uid, ctrl));
    }

    /// Makes sure the keyframe `uid` is selected, keeping the order.
    pub fn ensure_selected(&mut self, uid: u128)
        requires
            old(self).wf(),
        ensures
            final(self).wf(),
            final(self).selection() == with_selected(old(self).selection(), uid),
            final(self).same_but_selection(old(self)),
            strictly_sorted(old(self).selection()) ==> strictly_sorted(final(self).selection()),
    {
        proof {
            if strictly_sorted(self.selected_keyframes@) {
                assert(self.selected_keyframes.len() == self.selected_keyframes@.len());
                lemma_search_sorted(self.selected_keyframes@, uid);
            }
        }
        match search(&self.selected_keyframes, uid) {
            Ok(_) => {},
            Err(index) => {
                self.selected_keyframes.insert(index, uid);
            },
        }
        assert(self.selected_keyframes@ =~= with_selected(old(self).selected_keyframes@, uid));
    }

    /// Handles the selection rectangle passing over keyframe `uid`; `inside`
    /// tells whether the rectangle touches it.
    pub fn drag_select(&mut self, uid: u128, inside: bool, ctrl: bool)
        requires
            old(self).wf(),
        ensures
            final(self).wf(),
            final(self).selection() == drag_select_result(old(self).selection(), uid, inside, ctrl),
            final(self).same_but_selection(old(self)),
            strictly_sorted(old(self).selection()) ==> strictly_sorted(final(self).selection()),
    {
        proof {
            if strictly_sorted(self.selected_keyframes@) {
                assert(self.selected_keyframes.len() == self.selected_keyframes@.len());
                lemma_search_sorted(self.selected_keyframes@, uid);
            }
        }
        if inside {
            match search(&self.selected_keyframes, uid) {
                Ok(_) => {},
                Err(index) => {
                    self.selected_keyframes.insert(index, uid);
                },
            }
        } else {
            if !ctrl {
                match search(&self.selected_keyframes, uid) {
                    Ok(index) => {
                        self.selected_keyframes.remove(index);
                    },
                    Err(_) => {},
                }
            }
        }
        assert(self.selected_keyframes@ =~= drag_select_result(
            old(self).selected_keyframes@,
            uid,
            inside,
            ctrl,
        ));
    }
    /// Copies the selected keyframes to the clipboard, in timeline order;
    /// with nothing selected the clipboard is left as it was.
    pub fn copy(&mut self)
        requires
            old(self).wf(),
        ensures
            final(self).wf(),
            old(self).selection().len() == 0 ==> final(self).clip() == old(self).clip(),
            old(self).selection().len() > 0 ==> final(self).clip() == picked(
                old(self).kfs(),
                old(self).selection(),
            ),
            final(self).kfs() == old(self).kfs(),
            final(self).states() == old(self).states(),
            final(self).selection() == old(self).selection(),
            final(self).image_map() == old(self).image_map(),
            final(self).is_changed() == old(self).is_changed(),
            final(self).sort_requested() == old(self).sort_requested(),
    {
        if self.selected_keyframes.len() == 0 {
            return;
        }
        self.clip_board.clear();
        let mut i: usize = 0;
        while i < self.keyframes.len()
            invariant
                i <= self.keyframes@.len(),
                self.keyframes == old(self).keyframes,
                self.keyframe_state == old(self).keyframe_state,
                self.selected_keyframes == old(self).selected_keyframes,
                self.images == old(self).images,
                self.changed == old(self).changed,
                self.should_sort == old(self).should_sort,
                self.clip() == picked(self.kfs().take(i as int), self.selection()),
            decreases self.keyframes@.len() - i,
        {
            let ghost kfs = self.kfs();
            proof {
                assert(kfs.take(i + 1) =~= kfs.take(i as int) + seq![kfs[i as int]]);
                lemma_picked_append(kfs.take(i as int), seq![kfs[i as int]], self.selection());
                assert(seq![kfs[i as int]].drop_first() =~= Seq::<KeyframeModel<F, V>>::empty());
            }
            let hit = search(&self.selected_keyframes, self.keyframes[i].uid).is_ok();
            proof {
                assert(self.keyframes@[i as int]@ == kfs[i as int]);
                assert(hit == is_selected(self.selection(), kfs[i as int].uid));
                assert(picked(Seq::<KeyframeModel<F, V>>::empty(), self.selection()) =~= Seq::<
                    KeyframeModel<F, V>,
                >::empty());
                assert(picked(seq![kfs[i as int]], self.selection()) =~= if hit {
                    seq![kfs[i as int]]
                } else {
                    Seq::empty()
                });
            }
            if hit {
                let copy = self.keyframes[i].duplicate();
                self.clip_board.push(copy);
            }
            proof {
                if hit {
                    assert(self.clip() =~= picked(kfs.take(i as int), self.selection()) + seq![
                        kfs[i as int],
                    ]);
                } else {
                    assert(picked(kfs.take(i as int), self.selection()) + Seq::empty()
                        =~= picked(kfs.take(i as int), self.selection()));
                }
            }
            i = i + 1;
        }
        assert(self.kfs().take(i as int) =~= self.kfs());
    }

    /// Moves the selected keyframes to the clipboard, last keyframe first,
    /// removes them and their states from the timeline, marks the timeline
    /// changed if any was cut, and clears the selection.
    pub fn cut(&mut self)
        requires
            old(self).wf(),
        ensures
            final(self).wf(),
            final(self).clip() == picked(old(self).kfs(), old(self).selection()).reverse(),
            final(self).kfs() == kept(old(self).kfs(), old(self).selection()),
            final(self).states() == kept_states(
                uids_of(old(self).kfs()),
                old(self).states(),
                old(self).selection(),
            ),
            final(self).selection() == Seq::<u128>::empty(),
            final(self).is_changed() == (old(self).is_changed() || picked(
                old(self).kfs(),
                old(self).selection(),
            ).len() > 0),
            final(self).image_map() == old(self).image_map(),
            final(self).sort_requested() == old(self).sort_requested(),
    {
        let ghost kfs0 = self.kfs();
        let ghost states0 = self.keyframe_state@;
        let ghost sel = self.selected_keyframes@;
        self.clip_board.clear();
        let mut i: usize = self.keyframes.len();
        proof {
            assert(kfs0.skip(i as int) =~= Seq::<KeyframeModel<F, V>>::empty());
            assert(states0.skip(i as int) =~= Seq::<usize>::empty());
            assert(uids_of(kfs0).skip(i as int) =~= Seq::<u128>::empty());
            assert(self.kfs() =~= kfs0.take(i as int) + kept(kfs0.skip(i as int), sel));
            assert(self.keyframe_state@ =~= states0.take(i as int) + kept_states(
                uids_of(kfs0).skip(i as int),
                states0.skip(i as int),
                sel,
            ));
            assert(self.clip() =~= picked(kfs0.skip(i as int), sel).reverse());
        }
        while i > 0
            invariant
                forall|j: int| 0 <= j < self.keyframe_state@.len() ==> #[trigger] self.keyframe_state@[j] <= 2,
                i <= kfs0.len(),
                states0.len() == kfs0.len(),
                self.selected_keyframes@ == sel,
                self.images == old(self).images,
                self.changed == old(self).changed,
                self.should_sort == old(self).should_sort,
                self.kfs() == kfs0.take(i as int) + kept(kfs0.skip(i as int), sel),
                self.keyframe_state@ == states0.take(i as int) + kept_states(
                    uids_of(kfs0).skip(i as int),
                    states0.skip(i as int),
                    sel,
                ),
                self.clip() == picked(kfs0.skip(i as int), sel).reverse(),
            decreases i,
        {
            i = i - 1;
            let ghost k = kfs0[i as int];
            let ghost cur = self.kfs();
            let ghost cur_states = self.keyframe_state@;
            proof {
                assert(kfs0.skip(i as int).drop_first() =~= kfs0.skip(i + 1));
                assert(kfs0.skip(i as int)[0] == k);
                assert(states0.skip(i as int).drop_first() =~= states0.skip(i + 1));
                assert(uids_of(kfs0).skip(i as int).drop_first() =~= uids_of(kfs0).skip(i + 1));
                assert(uids_of(kfs0).skip(i as int)[0] == k.uid);
                assert(kfs0.take(i + 1) =~= kfs0.take(i as int).push(k));
                assert(states0.take(i + 1) =~= states0.take(i as int).push(states0[i as int]));
                assert(cur == kfs0.take(i + 1) + kept(kfs0.skip(i + 1), sel));
                assert(cur.len() == self.keyframes@.len());
                assert(kfs0.take(i + 1).len() == i + 1);
                assert(cur[i as int] == kfs0.take(i + 1)[i as int]);
                assert(cur[i as int] == k);
                assert(self.keyframes@[i as int]@ == k);
            }
            let hit = search(&self.selected_keyframes, self.keyframes[i].uid).is_ok();
            if hit {
                let copy = self.keyframes[i].duplicate();
                self.clip_board.push(copy);
                self.keyframes.remove(i);
                self.keyframe_state.remove(i);
                proof {
                    assert(hit == is_selected(sel, k.uid));
                    assert(kept(kfs0.skip(i as int), sel) =~= kept(kfs0.skip(i + 1), sel));
                    assert(self.kfs() =~= cur.remove(i as int));
                    assert(self.kfs() =~= kfs0.take(i as int) + kept(kfs0.skip(i as int), sel));
                    assert(self.keyframe_state@ =~= states0.take(i as int) + kept_states(
                        uids_of(kfs0).skip(i as int),
                        states0.skip(i as int),
                        sel,
                    ));
                    assert(picked(kfs0.skip(i as int), sel) =~= seq![k] + picked(
                        kfs0.skip(i + 1),
                        sel,
                    ));
                    assert((seq![k] + picked(kfs0.skip(i + 1), sel)).reverse() =~= picked(
                        kfs0.skip(i + 1),
                        sel,
                    ).reverse().push(k));
                    assert(self.clip() =~= picked(kfs0.skip(i as int), sel).reverse());
                }
            } else {
                proof {
                    assert(picked(kfs0.skip(i as int), sel) =~= picked(kfs0.skip(i + 1), sel));
                    assert(kept(kfs0.skip(i as int), sel) =~= seq![k] + kept(kfs0.skip(i + 1), sel));
                    assert(self.kfs() == cur);
                    assert(kfs0.take(i + 1) + kept(kfs0.skip(i + 1), sel) =~= kfs0.take(i as int) + (
                    seq![k] + kept(kfs0.skip(i + 1), sel)));
                    assert(self.kfs() =~= kfs0.take(i as int) + kept(kfs0.skip(i as int), sel));
                    assert(self.keyframe_state@ =~= states0.take(i as int) + kept_states(
                        uids_of(kfs0).skip(i as int),
                        states0.skip(i as int),
                        sel,
                    ));
                }
            }
        }
        proof {
            assert(kfs0.skip(0) =~= kfs0);
            assert(states0.skip(0) =~= states0);
            assert(uids_of(kfs0).skip(0) =~= uids_of(kfs0));
            assert(self.kfs() =~= kept(kfs0, sel));
            assert(self.keyframe_state@ =~= kept_states(uids_of(kfs0), states0, sel));
            lemma_kept_len(kfs0, states0, sel);
        }
        if self.clip_board.len() > 0 {
            self.changed = true;
        }
        self.selected_keyframes.clear();
    }
    /// Pastes the clipboard after the last keyframe under identifiers drawn
    /// at random (`new_uid`; they are not checked against those in use),
    /// copying each one's screenshot, and makes the pasted keyframes the
    /// selection. Returns how many were pasted: the application then moves
    /// them one second later. With an empty clipboard nothing changes.
    pub fn paste(&mut self) -> (count: usize)
        requires
            old(self).wf(),
        ensures
            final(self).wf(),
            count == old(self).clip().len(),
            final(self).clip() == old(self).clip(),
            final(self).is_changed() == old(self).is_changed(),
            count == 0 ==> {
                &&& final(self).kfs() == old(self).kfs()
                &&& final(self).states() == old(self).states()
                &&& final(self).selection() == old(self).selection()
                &&& final(self).image_map() == old(self).image_map()
                &&& final(self).sort_requested() == old(self).sort_requested()
            },
            count > 0 ==> {
                &&& final(self).selection().len() == count
                &&& final(self).kfs() == old(self).kfs() + renamed(
                    old(self).clip(),
                    final(self).selection(),
                )
                &&& final(self).states() == old(self).states() + idle_states(count as nat)
                &&& final(self).image_map() == pasted_images(
                    old(self).image_map(),
                    uids_of(old(self).clip()),
                    final(self).selection(),
                    count as int,
                )
                &&& final(self).sort_requested()
            },
    {
        let n: usize = self.clip_board.len();
        if n == 0 {
            return 0;
        }
        self.selected_keyframes.clear();
        let ghost kfs0 = self.kfs();
        let ghost states0 = self.keyframe_state@;
        let ghost images0 = self.image_map();
        let ghost clip = self.clip();
        let mut pasted: Vec<Keyframe<F, V>> = Vec::new();
        let mut j: usize = 0;
        while j < n
            invariant
                j <= n,
                n == self.clip_board@.len(),
                clip == self.clip(),
                self.keyframes == old(self).keyframes,
                self.clip_board == old(self).clip_board,
                self.changed == old(self).changed,
                self.should_sort == old(self).should_sort,
                self.selected_keyframes@.len() == j,
                pasted@.len() == j,
                forall|t: int| 0 <= t < j ==> #[trigger] pasted@[t]@ == with_uid(
                    clip[t],
                    self.selected_keyframes@[t],
                ),
                self.keyframe_state@ == states0 + idle_states(j as nat),
                self.image_map() == pasted_images(
                    images0,
                    uids_of(clip),
                    self.selected_keyframes@,
                    j as int,
                ),
            decreases n - j,
        {
            let mut kf = self.clip_board[j].duplicate();
            let fresh = crate::uid::new_uid();
            let ghost before = self.image_map();
            let ghost sel_before = self.selected_keyframes@;
            match self.images.get(&kf.uid) {
                Some(image) => {
                    let copy = image.clone();
                    self.images.insert(fresh, copy);
                },
                None => {},
            }
            kf.uid = fresh;
            self.selected_keyframes.push(fresh);
            self.keyframe_state.push(0);
            pasted.push(kf);
            proof {
                let sel = self.selected_keyframes@;
                assert(uids_of(clip)[j as int] == clip[j as int].uid);
                lemma_pasted_images_agree(images0, uids_of(clip), sel_before, sel, j as int);
                assert(pasted_images(images0, uids_of(clip), sel, j as int) == before);
                assert(self.image_map() =~= pasted_images(images0, uids_of(clip), sel, j + 1));
                assert(self.keyframe_state@ =~= states0 + idle_states((j + 1) as nat));
            }
            j = j + 1;
        }
        self.keyframes.append(&mut pasted);
        self.should_sort = true;
        proof {
            assert(self.kfs() =~= kfs0 + renamed(clip, self.selected_keyframes@));
        }
        n
    }
    /// Index of the first keyframe with identifier `uid`, or 0, and whether
    /// there is one.
    fn position_of(&self, uid: u128) -> (r: (usize, bool))
        ensures
            r.0 == first_index_or_zero(uids_of(self.kfs()), uid),
            r.1 == uids_of(self.kfs()).contains(uid),
    {
        let ghost uids = uids_of(self.kfs());
        let mut i: usize = 0;
        while i < self.keyframes.len()
            invariant
                i <= self.keyframes@.len(),
                uids == uids_of(self.kfs()),
                forall|j: int| 0 <= j < i ==> uids[j] != uid,
            decreases self.keyframes@.len() - i,
        {
            if self.keyframes[i].uid == uid {
                proof {
                    assert(uids[i as int] == uid);
                    lemma_first_index(uids, uid, i as int);
                }
                return (i, true);
            }
            i = i + 1;
        }
        proof {
            lemma_first_index_range(uids, uid);
        }
        (0, false)
    }

    /// Cuts from the keyframe context menu: takes the selected identifiers
    /// in selection order, see `menu_cut_run`, then clears the selection.
    pub fn cut_from_menu(&mut self)
        requires
            old(self).wf(),
            old(self).selection().len() <= old(self).kfs().len(),
        ensures
            final(self).wf(),
            final(self).kfs() == menu_cut_run(
                old(self).kfs(),
                old(self).states(),
                old(self).selection(),
            ).0,
            final(self).states() == menu_cut_run(
                old(self).kfs(),
                old(self).states(),
                old(self).selection(),
            ).1,
            final(self).clip() == menu_cut_run(
                old(self).kfs(),
                old(self).states(),
                old(self).selection(),
            ).2,
            final(self).selection() == Seq::<u128>::empty(),
            final(self).image_map() == old(self).image_map(),
            final(self).is_changed() == old(self).is_changed(),
            final(self).sort_requested() == old(self).sort_requested(),
    {
        let ghost kfs0 = self.kfs();
        let ghost states0 = self.keyframe_state@;
        let ghost sel = self.selected_keyframes@;
        self.clip_board.clear();
        let mut t: usize = 0;
        proof {
            assert(sel.take(0) =~= Seq::<u128>::empty());
            assert(self.clip() =~= Seq::<KeyframeModel<F, V>>::empty());
        }
        while t < self.selected_keyframes.len()
            invariant
                forall|j: int| 0 <= j < self.keyframe_state@.len() ==> #[trigger] self.keyframe_state@[j] <= 2,
                t <= sel.len(),
                sel.len() <= kfs0.len(),
                self.selected_keyframes@ == sel,
                self.images == old(self).images,
                self.changed == old(self).changed,
                self.should_sort == old(self).should_sort,
                self.keyframes@.len() == kfs0.len() - t,
                self.keyframe_state@.len() == self.keyframes@.len(),
                (self.kfs(), self.keyframe_state@, self.clip()) == menu_cut_run(
                    kfs0,
                    states0,
                    sel.take(t as int),
                ),
            decreases sel.len() - t,
        {
            let uid = self.selected_keyframes[t];
            let ghost prev_kfs = self.kfs();
            let ghost prev_clip = self.clip();
            let (index, found) = self.position_of(uid);
            proof {
                lemma_first_index_range(uids_of(prev_kfs), uid);
                assert(sel.take(t + 1).drop_last() =~= sel.take(t as int));
                assert(sel.take(t + 1).last() == uid);
            }
            if found {
                let copy = self.keyframes[index].duplicate();
                self.clip_board.push(copy);
            }
            self.keyframes.remove(index);
            self.keyframe_state.remove(index);
            proof {
                assert(self.kfs() =~= prev_kfs.remove(index as int));
                if found {
                    assert(self.clip() =~= prev_clip.push(prev_kfs[index as int]));
                }
            }
            t = t + 1;
        }
        proof {
            assert(sel.take(t as int) =~= sel);
        }
        self.selected_keyframes.clear();
    }

    /// Deletes the selected keyframes. With every keyframe selected all are
    /// removed at once; otherwise the selection is sorted in descending
    /// order and deleted in turn (`delete_run`), and the keyframe at the
    /// index removed last becomes the selection. Marks the timeline changed.
    /// Nothing happens when nothing is selected.
    pub fn delete_selected(&mut self)
        requires
            old(self).wf(),
            old(self).selection().len() <= old(self).kfs().len(),
        ensures
            final(self).wf(),
            final(self).clip() == old(self).clip(),
            final(self).image_map() == old(self).image_map(),
            final(self).sort_requested() == old(self).sort_requested(),
            old(self).selection().len() == 0 ==> {
                &&& final(self).kfs() == old(self).kfs()
                &&& final(self).states() == old(self).states()
                &&& final(self).selection() == old(self).selection()
                &&& final(self).is_changed() == old(self).is_changed()
            },
            old(self).selection().len() > 0 ==> final(self).is_changed(),
            old(self).selection().len() > 0 && old(self).selection().len() == old(self).kfs().len()
                ==> {
                &&& final(self).kfs().len() == 0
                &&& final(self).states().len() == 0
                &&& final(self).selection().len() == 0
            },
            old(self).selection().len() > 0 && old(self).selection().len() < old(self).kfs().len()
                ==> exists|order: Seq<u128>|
                {
                    &&& sorted_desc(order)
                    &&& order.to_multiset() == old(self).selection().to_multiset()
                    &&& #[trigger] delete_run(old(self).kfs(), old(self).states(), order).0
                        == final(self).kfs()
                    &&& delete_run(old(self).kfs(), old(self).states(), order).1
                        == final(self).states()
                    &&& final(self).selection() == after_delete_selection(
                        final(self).kfs(),
                        delete_run(old(self).kfs(), old(self).states(), order).2,
                    )
                },
    {
        let n_sel: usize = self.selected_keyframes.len();
        if n_sel == 0 {
            return;
        }
        let n_kf: usize = self.keyframe_state.len();
        sort_uids(&mut self.selected_keyframes);
        let ghost ascending = self.selected_keyframes@;
        let order = reversed(&self.selected_keyframes);
        proof {
            broadcast use vstd::seq_lib::group_to_multiset_ensures;

            self.selected_keyframes@.lemma_reverse_to_multiset();
            assert(self.selected_keyframes@.len() == self.selected_keyframes@.to_multiset().len());
            assert(old(self).selected_keyframes@.len()
                == old(self).selected_keyframes@.to_multiset().len());
        }
        self.selected_keyframes = order;
        if n_kf == n_sel {
            self.keyframes.clear();
            self.keyframe_state.clear();
            self.selected_keyframes.clear();
        } else {
            let ghost kfs0 = self.kfs();
            let ghost states0 = self.keyframe_state@;
            let ghost order = self.selected_keyframes@;
            let mut last_index: usize = 0;
            let mut t: usize = 0;
            proof {
                assert(order.take(0) =~= Seq::<u128>::empty());
            }
            while t < self.selected_keyframes.len()
                invariant
                    forall|j: int| 0 <= j < self.keyframe_state@.len() ==> #[trigger] self.keyframe_state@[j] <= 2,
                    t <= order.len(),
                    order.len() < kfs0.len(),
                    self.selected_keyframes@ == order,
                    self.clip_board == old(self).clip_board,
                    self.images == old(self).images,
                    self.changed == old(self).changed,
                    self.should_sort == old(self).should_sort,
                    self.keyframes@.len() == kfs0.len() - t,
                    self.keyframe_state@.len() == self.keyframes@.len(),
                    last_index <= self.keyframes@.len(),
                    (self.kfs(), self.keyframe_state@, last_index as int) == delete_run(
                        kfs0,
                        states0,
                        order.take(t as int),
                    ),
                decreases order.len() - t,
            {
                let uid = self.selected_keyframes[t];
                let ghost prev_kfs = self.kfs();
                let (index, found) = self.position_of(uid);
                proof {
                    lemma_first_index_range(uids_of(prev_kfs), uid);
                    assert(order.take(t + 1).drop_last() =~= order.take(t as int));
                    assert(order.take(t + 1).last() == uid);
                }
                self.keyframes.remove(index);
                self.keyframe_state.remove(index);
                last_index = index;
                proof {
                    assert(self.kfs() =~= prev_kfs.remove(index as int));
                }
                t = t + 1;
            }
            proof {
                assert(order.take(t as int) =~= order);
            }
            if self.keyframes.len() > 0 {
                if last_index == self.keyframes.len() {
                    last_index = last_index - 1;
                }
                self.selected_keyframes = vec![self.keyframes[last_index].uid];
            }
            proof {
                let r = delete_run(kfs0, states0, order);
                assert(self.selected_keyframes@ =~= after_delete_selection(self.kfs(), r.2));
                assert(delete_run(kfs0, states0, order).0 == self.kfs());
                assert(order == ascending.reverse());
                assert forall|i: int, j: int| 0 <= i < j < order.len() implies order[i]
                    >= order[j] by {
                    assert(order[i] == ascending[ascending.len() - 1 - i]);
                    assert(order[j] == ascending[ascending.len() - 1 - j]);
                }
                assert(sorted_desc(order));
                assert(order.to_multiset() == old(self).selected_keyframes@.to_multiset());
                assert(kfs0 == old(self).kfs());
                assert(states0 == old(self).states());
                assert(delete_run(old(self).kfs(), old(self).states(), order).0 == self.kfs());
            }
        }
        self.changed = true;
    }
    /// Pastes from the keyframe context menu: like `paste`, but the
    /// screenshots are not copied (the application moves the pasted
    /// keyframes a tenth of a second later).
    pub fn paste_from_menu(&mut self) -> (count: usize)
        requires
            old(self).wf(),
        ensures
            final(self).wf(),
            count == old(self).clip().len(),
            final(self).clip() == old(self).clip(),
            final(self).image_map() == old(self).image_map(),
            final(self).is_changed() == old(self).is_changed(),
            count == 0 ==> {
                &&& final(self).kfs() == old(self).kfs()
                &&& final(self).states() == old(self).states()
                &&& final(self).selection() == old(self).selection()
                &&& final(self).sort_requested() == old(self).sort_requested()
            },
            count > 0 ==> {
                &&& final(self).selection().len() == count
                &&& final(self).kfs() == old(self).kfs() + renamed(
                    old(self).clip(),
                    final(self).selection(),
                )
                &&& final(self).states() == old(self).states() + idle_states(count as nat)
                &&& final(self).sort_requested()
            },
    {
        let n: usize = self.clip_board.len();
        if n == 0 {
            return 0;
        }
        self.selected_keyframes.clear();
        let ghost kfs0 = self.kfs();
        let ghost states0 = self.keyframe_state@;
        let ghost clip = self.clip();
        let mut pasted: Vec<Keyframe<F, V>> = Vec::new();
        let mut j: usize = 0;
        while j < n
            invariant
                j <= n,
                n == self.clip_board@.len(),
                clip == self.clip(),
                self.keyframes == old(self).keyframes,
                self.clip_board == old(self).clip_board,
                self.images == old(self).images,
                self.changed == old(self).changed,
                self.should_sort == old(self).should_sort,
                self.selected_keyframes@.len() == j,
                pasted@.len() == j,
                forall|t: int| 0 <= t < j ==> #[trigger] pasted@[t]@ == with_uid(
                    clip[t],
                    self.selected_keyframes@[t],
                ),
                self.keyframe_state@ == states0 + idle_states(j as nat),
            decreases n - j,
        {
            let mut kf = self.clip_board[j].duplicate();
            let fresh = crate::uid::new_uid();
            kf.uid = fresh;
            self.selected_keyframes.push(fresh);
            self.keyframe_state.push(0);
            pasted.push(kf);
            proof {
                assert(self.keyframe_state@ =~= states0 + idle_states((j + 1) as nat));
            }
            j = j + 1;
        }
        self.keyframes.append(&mut pasted);
        self.should_sort = true;
        proof {
            assert(self.kfs() =~= kfs0 + renamed(clip, self.selected_keyframes@));
        }
        n
    }

    /// Recomputes which keyframes show as selected, as each frame does:
    /// see `marked_states`.
    pub fn refresh_states(&mut self)
        requires
            old(self).wf(),
            old(self).selection().len() == 0 || old(self).kfs().len() > 0,
        ensures
            final(self).wf(),
            final(self).states() == marked_states(
                old(self).states(),
                uids_of(old(self).kfs()),
                old(self).selection(),
            ),
            final(self).kfs() == old(self).kfs(),
            final(self).selection() == old(self).selection(),
            final(self).clip() == old(self).clip(),
            final(self).image_map() == old(self).image_map(),
            final(self).is_changed() == old(self).is_changed(),
            final(self).sort_requested() == old(self).sort_requested(),
    {
        let ghost states0 = self.keyframe_state@;
        let ghost uids = uids_of(self.kfs());
        let ghost sel = self.selected_keyframes@;
        let ghost base = unmarked(states0);
        let n: usize = self.keyframe_state.len();
        let mut i: usize = 0;
        while i < n
            invariant
                i <= n,
                n == states0.len(),
                self.keyframes == old(self).keyframes,
                self.selected_keyframes == old(self).selected_keyframes,
                self.clip_board == old(self).clip_board,
                self.images == old(self).images,
                self.changed == old(self).changed,
                self.should_sort == old(self).should_sort,
                self.keyframe_state@.len() == n,
                base == unmarked(states0),
                forall|j: int| 0 <= j < i ==> self.keyframe_state@[j] == base[j],
                forall|j: int| i <= j < n ==> self.keyframe_state@[j] == states0[j],
            decreases n - i,
        {
            proof {
                assert(base[i as int] == if states0[i as int] == 2 {
                    0usize
                } else {
                    states0[i as int]
                });
            }
            if self.keyframe_state[i] == 2 {
                self.keyframe_state.set(i, 0);
            }
            i = i + 1;
        }
        let mut t: usize = 0;
        while t < self.selected_keyframes.len()
            invariant
                t <= sel.len(),
                sel.len() == 0 || uids.len() > 0,
                uids == uids_of(self.kfs()),
                n == states0.len(),
                n == uids.len(),
                self.selected_keyframes@ == sel,
                self.keyframes == old(self).keyframes,
                self.clip_board == old(self).clip_board,
                self.images == old(self).images,
                self.changed == old(self).changed,
                self.should_sort == old(self).should_sort,
                self.keyframe_state@.len() == n,
                base == unmarked(states0),
                forall|j: int|
                    0 <= j < n ==> #[trigger] self.keyframe_state@[j] == if exists|s: int|
                        0 <= s < t && first_index_or_zero(uids, sel[s]) == j {
                        2usize
                    } else {
                        base[j]
                    },
            decreases sel.len() - t,
        {
            let (index, _found) = self.position_of(self.selected_keyframes[t]);
            proof {
                lemma_first_index_range(uids, sel[t as int]);
            }
            self.keyframe_state.set(index, 2);
            proof {
                assert forall|j: int| 0 <= j < n implies #[trigger] self.keyframe_state@[j] == if exists|
                    s: int,
                | 0 <= s < t + 1 && first_index_or_zero(uids, sel[s]) == j {
                    2usize
                } else {
                    base[j]
                } by {
                    if j == index {
                        assert(first_index_or_zero(uids, sel[t as int]) == j);
                    }
                }
            }
            t = t + 1;
        }
        assert(self.keyframe_state@ =~= marked_states(states0, uids, sel));
    }

    /// The last keyframe shown as selected, whose screenshot is displayed.
    pub fn last_selected_index(&self) -> (r: Option<usize>)
        ensures
            r == match last_marked(self.states()) {
                Some(i) => Some(i as usize),
                None => None::<usize>,
            },
            r matches Some(i) ==> i < self.states().len(),
    {
        let mut i: usize = self.keyframe_state.len();
        assert(self.keyframe_state@.take(i as int) =~= self.keyframe_state@);
        while i > 0
            invariant
                i <= self.keyframe_state@.len(),
                last_marked(self.keyframe_state@) == last_marked(self.keyframe_state@.take(i as int)),
            decreases i,
        {
            proof {
                assert(self.keyframe_state@.take(i as int).drop_last() =~= self.keyframe_state@.take(
                    i - 1,
                ));
            }
            if self.keyframe_state[i - 1] == 2 {
                return Some(i - 1);
            }
            i = i - 1;
        }
        None
    }

    /// Moves the keyframes' play states after the playhead moved: `inside`
    /// tells, for each keyframe, whether the playhead is within it. Returns
    /// the keyframes to start and end while playing, in order.
    pub fn advance_playhead(&mut self, inside: &Vec<bool>, play: bool) -> (events: Vec<(usize, bool)>)
        requires
            old(self).wf(),
            inside@.len() == old(self).kfs().len(),
        ensures
            final(self).wf(),
            final(self).states() == Seq::new(
                old(self).states().len(),
                |j: int| playhead_state(old(self).states()[j], inside@[j]),
            ),
            events@ == playhead_events(old(self).states(), inside@, play, inside@.len() as int),
            final(self).kfs() == old(self).kfs(),
            final(self).selection() == old(self).selection(),
            final(self).clip() == old(self).clip(),
            final(self).image_map() == old(self).image_map(),
            final(self).is_changed() == old(self).is_changed(),
            final(self).sort_requested() == old(self).sort_requested(),
    {
        let ghost states0 = self.keyframe_state@;
        let mut events: Vec<(usize, bool)> = Vec::new();
        let n: usize = self.keyframe_state.len();
        let mut i: usize = 0;
        while i < n
            invariant
                i <= n,
                n == states0.len(),
                inside@.len() == n,
                self.keyframes == old(self).keyframes,
                self.selected_keyframes == old(self).selected_keyframes,
                self.clip_board == old(self).clip_board,
                self.images == old(self).images,
                self.changed == old(self).changed,
                self.should_sort == old(self).should_sort,
                self.keyframe_state@.len() == n,
                forall|j: int|
                    0 <= j < i ==> self.keyframe_state@[j] == playhead_state(states0[j], inside@[j]),
                forall|j: int| i <= j < n ==> self.keyframe_state@[j] == states0[j],
                events@ == playhead_events(states0, inside@, play, i as int),
            decreases n - i,
        {
            let current = self.keyframe_state[i];
            if inside[i] {
                self.keyframe_state.set(i, 1);
                if current != 1 && play {
                    events.push((i, true));
                }
            } else {
                if current == 1 {
                    self.keyframe_state.set(i, 0);
                }
                if current != self.keyframe_state[i] && play {
                    events.push((i, false));
                }
            }
            i = i + 1;
        }
        assert(self.keyframe_state@ =~= Seq::new(
            states0.len(),
            |j: int| playhead_state(states0[j], inside@[j]),
        ));
        events
    }
    /// Ctrl+right: selects the next keyframe (`next_index`); with shift it
    /// joins the selection. Nothing happens without keyframes.
    pub fn select_next(&mut self, shift: bool)
        requires
            old(self).wf(),
        ensures
            final(self).wf(),
            final(self).same_but_selection(old(self)),
            old(self).kfs().len() == 0 ==> final(self).selection() == old(self).selection(),
            old(self).kfs().len() > 0 ==> final(self).selection() == navigated(
                uids_of(old(self).kfs()),
                old(self).selection(),
                next_index(uids_of(old(self).kfs()), old(self).selection()),
                shift,
            ),
            strictly_sorted(old(self).selection()) ==> strictly_sorted(final(self).selection()),
    {
        if self.keyframe_state.len() == 0 {
            return;
        }
        let ghost uids = uids_of(self.kfs());
        let mut last_index: usize = 0;
        let n: usize = self.selected_keyframes.len();
        if n > 0 {
            let last = self.selected_keyframes[n - 1];
            let (next, _found) = self.position_of(last);
            proof {
                lemma_first_index_range(uids, last);
            }
            if self.keyframe_state.len() > next + 1 {
                last_index = next + 1;
            } else {
                last_index = next;
            }
        }
        let uid = self.keyframes[last_index].uid;
        if shift {
            self.ensure_selected(uid);
        } else {
            self.selected_keyframes = vec![uid];
        }
    }

    /// Ctrl+left: selects the previous keyframe (`previous_index`); with
    /// shift it joins the selection. Nothing happens without keyframes.
    pub fn select_previous(&mut self, shift: bool)
        requires
            old(self).wf(),
            old(self).kfs().len() == 0 || old(self).selection().len() > 0,
        ensures
            final(self).wf(),
            final(self).same_but_selection(old(self)),
            old(self).kfs().len() == 0 ==> final(self).selection() == old(self).selection(),
            old(self).kfs().len() > 0 ==> final(self).selection() == navigated(
                uids_of(old(self).kfs()),
                old(self).selection(),
                previous_index(uids_of(old(self).kfs()), old(self).selection()),
                shift,
            ),
            strictly_sorted(old(self).selection()) ==> strictly_sorted(final(self).selection()),
    {
        if self.keyframe_state.len() == 0 {
            return;
        }
        let ghost uids = uids_of(self.kfs());
        let n: usize = self.selected_keyframes.len();
        let last = self.selected_keyframes[n - 1];
        let (next, _found) = self.position_of(last);
        proof {
            lemma_first_index_range(uids, last);
        }
        let last_index: usize = if next > 0 {
            next - 1
        } else {
            0
        };
        let uid = self.keyframes[last_index].uid;
        if shift {
            self.ensure_selected(uid);
        } else {
            self.selected_keyframes = vec![uid];
        }
    }

    /// The keyframe whose details the side panel shows: the last keyframe
    /// carrying the most recently selected identifier (the first keyframe
    /// when none does), or nothing with an empty selection.
    pub fn selected_index(&self) -> (r: Option<usize>)
        ensures
            self.selection().len() == 0 ==> r is None,
            self.selection().len() > 0 ==> r == Some(
                last_index_or_zero(uids_of(self.kfs()), self.selection().last()) as usize,
            ),
            r matches Some(i) ==> self.kfs().len() == 0 || i < self.kfs().len(),
    {
        let n: usize = self.selected_keyframes.len();
        if n == 0 {
            return None;
        }
        let uid = self.selected_keyframes[n - 1];
        let ghost uids = uids_of(self.kfs());
        let mut index: usize = 0;
        let mut i: usize = 0;
        while i < self.keyframes.len()
            invariant
                i <= self.keyframes@.len(),
                uids == uids_of(self.kfs()),
                index as int == last_index_or_zero(uids.take(i as int), uid),
                i == 0 || index < i,
            decreases self.keyframes@.len() - i,
        {
            proof {
                assert(uids.take(i + 1).drop_last() =~= uids.take(i as int));
                lemma_last_index_range(uids.take(i as int), uid);
            }
            if self.keyframes[i].uid == uid {
                index = i;
            }
            i = i + 1;
        }
        proof {
            assert(uids.take(i as int) =~= uids);
        }
        Some(index)
    }

    /// Toggles whether the sequencer records: the flag `recording` is
    /// flipped. Starting with `clear_before_recording` empties the timeline
    /// and resets the time. Stopping removes the last keyframe when it ends
    /// at the playhead (`last_ends_at_playhead`) and is the input that
    /// stopped the recording; then, if there was a last keyframe, the time
    /// is reset when recordings overwrite. Returns whether the stop keyframe
    /// was removed and whether the time goes back to 0.
    pub fn toggle_recording(
        &mut self,
        recording: &mut bool,
        clear_before_recording: bool,
        last_ends_at_playhead: bool,
    ) -> (r: (bool, bool))
        requires
            old(self).wf(),
        ensures
            final(self).wf(),
            *final(recording) == !*old(recording),
            final(self).same_but_keyframes(old(self)),
            *final(recording) ==> {
                &&& !r.0
                &&& r.1 == clear_before_recording
                &&& clear_before_recording ==> final(self).kfs().len() == 0 && final(self).states().len() == 0
                &&& !clear_before_recording ==> final(self).kfs() == old(self).kfs() && final(self).states() == old(self).states()
            },
            !*final(recording) ==> {
                &&& r.0 == (old(self).kfs().len() > 0 && last_ends_at_playhead && is_record_stop_keyframe(
                    old(self).kfs().last().keyframe_type,
                ))
                &&& r.1 == (old(self).kfs().len() > 0 && clear_before_recording)
                &&& r.0 ==> final(self).kfs() == old(self).kfs().drop_last() && final(self).states() == old(self).states().drop_last()
                &&& !r.0 ==> final(self).kfs() == old(self).kfs() && final(self).states() == old(self).states()
            },
    {
        *recording = !*recording;
        if *recording {
            if clear_before_recording {
                self.keyframes.clear();
                self.keyframe_state.clear();
            }
            return (false, clear_before_recording);
        }
        let n: usize = self.keyframes.len();
        if n == 0 {
            return (false, false);
        }
        let stop = last_ends_at_playhead && match &self.keyframes[n - 1].keyframe_type {
            KeyframeType::KeyBtn(Key::F8) => true,
            KeyframeType::MouseBtn(Button::Left) => true,
            _ => false,
        };
        if stop {
            self.keyframes.pop();
            self.keyframe_state.pop();
            proof {
                assert(self.kfs() =~= old(self).kfs().drop_last());
            }
        }
        (stop, clear_before_recording)
    }

    /// Replaces the keyframes with loaded ones, all idle.
    pub fn load_from_state(&mut self, keyframes: Vec<Keyframe<F, V>>)
        requires
            old(self).wf(),
        ensures
            final(self).wf(),
            final(self).kfs() == keyframes@.map_values(|k: Keyframe<F, V>| k@),
            final(self).states() == idle_states(keyframes@.len()),
            final(self).same_but_keyframes(old(self)),
    {
        let n: usize = keyframes.len();
        self.keyframes = keyframes;
        let mut states: Vec<usize> = Vec::new();
        let mut i: usize = 0;
        while i < n
            invariant
                i <= n,
                states@ == idle_states(i as nat),
            decreases n - i,
        {
            states.push(0);
            i = i + 1;
            assert(states@ =~= idle_states(i as nat));
        }
        self.keyframe_state = states;
    }

    /// Empties the timeline for a new file, which has no unsaved edits.
    pub fn reset_for_new_file(&mut self)
        requires
            old(self).wf(),
        ensures
            final(self).wf(),
            final(self).kfs().len() == 0,
            final(self).states().len() == 0,
            !final(self).is_changed(),
            final(self).selection() == old(self).selection(),
            final(self).clip() == old(self).clip(),
            final(self).image_map() == old(self).image_map(),
            final(self).sort_requested() == old(self).sort_requested(),
    {
        self.keyframes.clear();
        self.keyframe_state.clear();
        self.changed = false;
    }

    /// Appends a recorded keyframe, idle, and marks the timeline changed.
    pub fn push_recorded(&mut self, keyframe: Keyframe<F, V>)
        requires
            old(self).wf(),
        ensures
            final(self).wf(),
            final(self).kfs() == old(self).kfs().push(keyframe@),
            final(self).states() == old(self).states().push(0),
            final(self).is_changed(),
            final(self).selection() == old(self).selection(),
            final(self).clip() == old(self).clip(),
            final(self).image_map() == old(self).image_map(),
            final(self).sort_requested() == old(self).sort_requested(),
    {
        self.keyframes.push(keyframe);
        self.keyframe_state.push(0);
        self.changed = true;
        assert(self.kfs() =~= old(self).kfs().push(keyframe@));
    }
    /// The keyframes, in order.
    pub fn keyframes(&self) -> (r: &Vec<Keyframe<F, V>>)
        ensures
            r@.map_values(|k: Keyframe<F, V>| k@) == self.kfs(),
    {
        &self.keyframes
    }

    /// The play state of each keyframe.
    pub fn keyframe_state(&self) -> (r: &Vec<usize>)
        ensures
            r@ == self.states(),
    {
        &self.keyframe_state
    }

    /// Identifiers of the selected keyframes.
    pub fn selected_keyframes(&self) -> (r: &Vec<u128>)
        ensures
            r@ == self.selection(),
    {
        &self.selected_keyframes
    }

    /// The clipboard.
    pub fn clip_board(&self) -> (r: &Vec<Keyframe<F, V>>)
        ensures
            r@.map_values(|k: Keyframe<F, V>| k@) == self.clip(),
    {
        &self.clip_board
    }

    /// The screenshots by keyframe identifier.
    pub fn images(&self) -> (r: &HashMap<u128, Vec<u8>>)
        ensures
            r@.dom() == self.image_map().dom(),
            forall|u: u128| #[trigger] r@.contains_key(u) ==> r@[u]@ == self.image_map()[u],
    {
        &self.images
    }

    /// Whether there are edits not yet saved.
    pub fn changed(&self) -> (r: bool)
        ensures
            r == self.is_changed(),
    {
        self.changed
    }

    /// Whether the keyframes are to be put back in time order.
    pub fn should_sort(&self) -> (r: bool)
        ensures
            r == self.sort_requested(),
    {
        self.should_sort
    }

    /// Records an edit of the keyframes.
    pub fn mark_changed(&mut self)
        requires
            old(self).wf(),
        ensures
            final(self).wf(),
            final(self).is_changed(),
            final(self).kfs() == old(self).kfs(),
            final(self).states() == old(self).states(),
            final(self).selection() == old(self).selection(),
            final(self).clip() == old(self).clip(),
            final(self).image_map() == old(self).image_map(),
            final(self).sort_requested() == old(self).sort_requested(),
    {
        self.changed = true;
    }

    /// Records that the keyframes were saved.
    pub fn mark_saved(&mut self)
        requires
            old(self).wf(),
        ensures
            final(self).wf(),
            !final(self).is_changed(),
            final(self).kfs() == old(self).kfs(),
            final(self).states() == old(self).states(),
            final(self).selection() == old(self).selection(),
            final(self).clip() == old(self).clip(),
            final(self).image_map() == old(self).image_map(),
            final(self).sort_requested() == old(self).sort_requested(),
    {
        self.changed = false;
    }

    /// Asks for the keyframes to be put back in time order.
    pub fn request_sort(&mut self)
        requires
            old(self).wf(),
        ensures
            final(self).wf(),
            final(self).sort_requested(),
            final(self).kfs() == old(self).kfs(),
            final(self).states() == old(self).states(),
            final(self).selection() == old(self).selection(),
            final(self).clip() == old(self).clip(),
            final(self).image_map() == old(self).image_map(),
            final(self).is_changed() == old(self).is_changed(),
    {
        self.should_sort = true;
    }

    /// Sets the time and length of the keyframe at `index`.
    pub fn set_timing(&mut self, index: usize, timestamp: F, duration: F)
        requires
            old(self).wf(),
            index < old(self).kfs().len(),
        ensures
            final(self).wf(),
            final(self).kfs() == old(self).kfs().update(
                index as int,
                with_timing(old(self).kfs()[index as int], timestamp, duration),
            ),
            final(self).states() == old(self).states(),
            final(self).selection() == old(self).selection(),
            final(self).clip() == old(self).clip(),
            final(self).image_map() == old(self).image_map(),
            final(self).is_changed() == old(self).is_changed(),
            final(self).sort_requested() == old(self).sort_requested(),
    {
        let mut kf = self.keyframes.remove(index);
        kf.timestamp = timestamp;
        kf.duration = duration;
        self.keyframes.insert(index, kf);
        assert(self.kfs() =~= old(self).kfs().update(
            index as int,
            with_timing(old(self).kfs()[index as int], timestamp, duration),
        ));
    }

    /// Stores the screenshot taken for keyframe `uid`.
    pub fn insert_image(&mut self, uid: u128, bytes: Vec<u8>)
        requires
            old(self).wf(),
        ensures
            final(self).wf(),
            final(self).image_map() == old(self).image_map().insert(uid, bytes@),
            final(self).kfs() == old(self).kfs(),
            final(self).states() == old(self).states(),
            final(self).selection() == old(self).selection(),
            final(self).clip() == old(self).clip(),
            final(self).is_changed() == old(self).is_changed(),
            final(self).sort_requested() == old(self).sort_requested(),
    {
        self.images.insert(uid, bytes);
        assert(self.image_map() =~= old(self).image_map().insert(uid, bytes@));
    }

    /// Loads the screenshot entries of a saved file (all entries after the
    /// first), in order, each under the identifier its name stands for.
    /// Returns whether every name parsed; when one does not, nothing is
    /// loaded.
    pub fn load_images(&mut self, entries: Vec<(String, Vec<u8>)>) -> (ok: bool)
        requires
            old(self).wf(),
        ensures
            final(self).wf(),
            ok == entries_parse(entries@),
            ok ==> final(self).image_map() == with_images(old(self).image_map(), entries@),
            !ok ==> final(self).image_map() == old(self).image_map(),
            final(self).kfs() == old(self).kfs(),
            final(self).states() == old(self).states(),
            final(self).selection() == old(self).selection(),
            final(self).clip() == old(self).clip(),
            final(self).is_changed() == old(self).is_changed(),
            final(self).sort_requested() == old(self).sort_requested(),
    {
        let mut keys: Vec<u128> = Vec::new();
        let mut i: usize = 0;
        while i < entries.len()
            invariant
                i <= entries@.len(),
                keys@.len() == i,
                forall|j: int| 0 <= j < i ==> parsed_image_key(entries@[j].0@) == Some(keys@[j]),
                old(self).wf(),
                self.keyframes == old(self).keyframes,
                self.keyframe_state == old(self).keyframe_state,
                self.selected_keyframes == old(self).selected_keyframes,
                self.clip_board == old(self).clip_board,
                self.images == old(self).images,
                self.changed == old(self).changed,
                self.should_sort == old(self).should_sort,
            decreases entries@.len() - i,
        {
            match parse_image_key(entries[i].0.as_str()) {
                Some(key) => keys.push(key),
                None => {
                    assert(!(parsed_image_key(entries@[i as int].0@) is Some));
                    return false;
                },
            }
            i = i + 1;
        }
        assert(entries_parse(entries@)) by {
            assert forall|j: int| 0 <= j < entries@.len() implies (#[trigger] parsed_image_key(
                entries@[j].0@,
            )) is Some by {
                assert(parsed_image_key(entries@[j].0@) == Some(keys@[j]));
            }
        }
        let ghost start = self.image_map();
        let mut i: usize = 0;
        while i < entries.len()
            invariant
                i <= entries@.len(),
                keys@.len() == entries@.len(),
                forall|j: int| 0 <= j < entries@.len() ==> parsed_image_key(entries@[j].0@) == Some(keys@[j]),
                self.image_map() == with_images(start, entries@.take(i as int)),
                self.keyframes == old(self).keyframes,
                self.keyframe_state == old(self).keyframe_state,
                self.selected_keyframes == old(self).selected_keyframes,
                self.clip_board == old(self).clip_board,
                self.changed == old(self).changed,
                self.should_sort == old(self).should_sort,
            decreases entries@.len() - i,
        {
            let bytes = entries[i].1.clone();
            let ghost before = self.image_map();
            self.images.insert(keys[i], bytes);
            proof {
                assert(bytes@ =~= entries@[i as int].1@);
                assert(entries@.take(i + 1).drop_last() =~= entries@.take(i as int));
                assert(self.image_map() =~= before.insert(keys@[i as int], bytes@));
            }
            i = i + 1;
        }
        assert(entries@.take(i as int) =~= entries@);
        true
    }

    /// Puts the keyframes in the order `order` gives (the keyframe at
    /// `order[i]` moves to `i`) and clears the sort request, when `order`
    /// lists each index once; otherwise changes nothing. The play states
    /// keep their places: the next frame recomputes them.
    pub fn reorder(&mut self, order: &Vec<usize>) -> (applied: bool)
        requires
            old(self).wf(),
        ensures
            final(self).wf(),
            applied == is_permutation(order@, old(self).kfs().len()),
            applied ==> final(self).kfs() == Seq::new(
                old(self).kfs().len(),
                |i: int| old(self).kfs()[order@[i] as int],
            ),
            applied ==> !final(self).sort_requested(),
            !applied ==> final(self).kfs() == old(self).kfs() && final(self).sort_requested() == old(self).sort_requested(),
            final(self).states() == old(self).states(),
            final(self).selection() == old(self).selection(),
            final(self).clip() == old(self).clip(),
            final(self).image_map() == old(self).image_map(),
            final(self).is_changed() == old(self).is_changed(),
    {
        let n: usize = self.keyframes.len();
        if !lists_each_index_once(order, n) {
            return false;
        }
        let ghost kfs0 = self.kfs();
        let mut old_keyframes: Vec<Option<Keyframe<F, V>>> = Vec::new();
        while self.keyframes.len() > 0
            invariant
                self.keyframes@.len() + old_keyframes@.len() == n,
                kfs0.len() == n,
                forall|j: int|
                    0 <= j < old_keyframes@.len() ==> #[trigger] old_keyframes@[j] is Some
                        && old_keyframes@[j]->0@ == kfs0[n - 1 - j],
                forall|j: int| 0 <= j < self.keyframes@.len() ==> self.keyframes@[j]@ == kfs0[j],
                self.keyframe_state == old(self).keyframe_state,
                self.selected_keyframes == old(self).selected_keyframes,
                self.clip_board == old(self).clip_board,
                self.images == old(self).images,
                self.changed == old(self).changed,
            decreases self.keyframes@.len(),
        {
            let kf = self.keyframes.pop().unwrap();
            old_keyframes.push(Some(kf));
        }
        let mut i: usize = 0;
        while i < n
            invariant
                i <= n,
                order@.len() == n,
                kfs0.len() == n,
                old_keyframes@.len() == n,
                self.keyframes@.len() == i,
                forall|j: int| 0 <= j < n ==> order@[j] < n,
                forall|j: int, k: int| 0 <= j < k < n ==> order@[j] != order@[k],
                forall|j: int|
                    0 <= j < n ==> (#[trigger] old_keyframes@[j] is Some <==> forall|t: int|
                        0 <= t < i ==> n - 1 - order@[t] != j),
                forall|j: int|
                    0 <= j < n && old_keyframes@[j] is Some ==> old_keyframes@[j]->0@ == kfs0[n - 1
                        - j],
                forall|t: int| 0 <= t < i ==> self.keyframes@[t]@ == kfs0[order@[t] as int],
                self.keyframe_state == old(self).keyframe_state,
                self.selected_keyframes == old(self).selected_keyframes,
                self.clip_board == old(self).clip_board,
                self.images == old(self).images,
                self.changed == old(self).changed,
            decreases n - i,
        {
            let slot: usize = n - 1 - order[i];
            proof {
                assert(old_keyframes@[slot as int] is Some);
            }
            let taken = old_keyframes.remove(slot);
            old_keyframes.insert(slot, None);
            match taken {
                Some(kf) => self.keyframes.push(kf),
                None => {},
            }
            proof {
                assert forall|j: int| 0 <= j < n implies (#[trigger] old_keyframes@[j] is Some
                    <==> forall|t: int| 0 <= t < i + 1 ==> n - 1 - order@[t] != j) by {
                    if j != slot {
                        if old_keyframes@[j] is Some {
                            assert forall|t: int| 0 <= t < i + 1 implies n - 1 - order@[t] != j by {
                                if t == i {
                                }
                            }
                        }
                    }
                }
            }
            i = i + 1;
        }
        self.should_sort = false;
        assert(self.kfs() =~= Seq::new(n as nat, |i: int| kfs0[order@[i] as int]));
        true
    }
}

} // verus!
