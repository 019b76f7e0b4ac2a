//! Key bindings: per-key listeners and hotkeys (key combinations), fired on
//! the transitions of the keys' pressed state between two polls.
use vstd::prelude::*;

use crate::keys::GameKeyCode;

verus! {

/// A key's transition.
#[derive(Debug, Clone, Copy, PartialEq, Eq, Hash, Structural)]
pub enum KeyState {
    KeyDown,
    KeyUp,
}

/// A key went down or up.
#[derive(Debug, Clone, Copy, PartialEq, Eq, Hash, Structural)]
pub struct KeyEvent {
    pub key: GameKeyCode,
    pub state: KeyState,
}

/// A hotkey went down or up: the transition of one of its keys while all
/// its other keys were held.
#[derive(Debug, Clone, PartialEq, Eq, Hash)]
pub struct HotkeyEvent {
    pub keys: Vec<GameKeyCode>,
    pub state: KeyState,
}

/// What one transition fires: the event, the indices of the key listeners
/// of that key, and the indices of the hotkeys that it completes.
pub struct KeyDispatch {
    pub event: KeyEvent,
    pub listeners: Vec<usize>,
    pub hotkeys: Vec<usize>,
}

pub open spec fn increasing(r: Seq<usize>) -> bool {
    forall|a: int, b: int| 0 <= a < b < r.len() ==> r[a] < r[b]
}

/// `r` lists, in increasing order, the listeners of `key`.
pub open spec fn lists_listeners(r: Seq<usize>, listener_keys: Seq<GameKeyCode>, key: GameKeyCode) -> bool {
    &&& increasing(r)
    &&& forall|k: int| 0 <= k < r.len() ==> r[k] < listener_keys.len() && listener_keys[#[trigger] r[k] as int] == key
    &&& forall|i: int| 0 <= i < listener_keys.len() && #[trigger] listener_keys[i] == key ==> exists|k: int|
        0 <= k < r.len() && r[k] == i
}

/// `r` lists, in increasing order, the hotkeys that a transition of `key`
/// completes under `states`.
pub open spec fn lists_completed(
    r: Seq<usize>,
    hotkey_keys: Seq<Seq<GameKeyCode>>,
    key: GameKeyCode,
    keys: Seq<GameKeyCode>,
    states: Seq<bool>,
) -> bool {
    &&& increasing(r)
    &&& forall|k: int| 0 <= k < r.len() ==> r[k] < hotkey_keys.len() && completes(hotkey_keys[#[trigger] r[k] as int], key, keys, states)
    &&& forall|i: int| 0 <= i < hotkey_keys.len() && #[trigger] completes(hotkey_keys[i], key, keys, states) ==> exists|k: int|
        0 <= k < r.len() && r[k] == i
}

/// Whether `key` is registered with a pressed state in `states`.
pub open spec fn held(keys: Seq<GameKeyCode>, states: Seq<bool>, key: GameKeyCode) -> bool {
    exists|j: int| 0 <= j < keys.len() && keys[j] == key && states[j]
}

/// Hotkey `combo` is completed by a transition of `key`: it holds `key`,
/// and every other key of it is held.
pub open spec fn completes(combo: Seq<GameKeyCode>, key: GameKeyCode, keys: Seq<GameKeyCode>, states: Seq<bool>) -> bool {
    combo.contains(key) && forall|c: int| 0 <= c < combo.len() && combo[c] != key ==> held(keys, states, #[trigger] combo[c])
}

/// The pressed states while the keys are visited in order: those before
/// `i` already hold their new state.
pub open spec fn states_at(old: Seq<bool>, down: Seq<bool>, i: int) -> Seq<bool> {
    Seq::new(old.len(), |j: int| if j < i { down[j] } else { old[j] })
}

pub open spec fn state_of(down: bool) -> KeyState {
    if down { KeyState::KeyDown } else { KeyState::KeyUp }
}

/// Registered keys with their last seen pressed state, listeners per key,
/// and hotkeys. Each key is registered once.
pub struct KeybindManager<K, H> {
    registered_keys: Vec<GameKeyCode>,
    key_states: Vec<bool>,
    key_callbacks: Vec<(GameKeyCode, K)>,
    hotkey_callbacks: Vec<(Vec<GameKeyCode>, H)>,
}

impl<K, H> KeybindManager<K, H> {
    pub closed spec fn keys(&self) -> Seq<GameKeyCode> {
        self.registered_keys@
    }

    pub closed spec fn states(&self) -> Seq<bool> {
        self.key_states@
    }

    pub closed spec fn listener_keys(&self) -> Seq<GameKeyCode> {
        self.key_callbacks@.map_values(|e: (GameKeyCode, K)| e.0)
    }

    pub closed spec fn hotkey_keys(&self) -> Seq<Seq<GameKeyCode>> {
        self.hotkey_callbacks@.map_values(|e: (Vec<GameKeyCode>, H)| e.0@)
    }

    pub closed spec fn wf(&self) -> bool {
        &&& self.key_states@.len() == self.registered_keys@.len()
        &&& forall|a: int, b: int| 0 <= a < b < self.registered_keys@.len() ==> self.registered_keys@[a] != self.registered_keys@[b]
    }

    pub fn new() -> (r: Self)
        ensures
            r.wf(),
            r.keys() == Seq::<GameKeyCode>::empty(),
            r.listener_keys() == Seq::<GameKeyCode>::empty(),
            r.hotkey_keys() == Seq::<Seq<GameKeyCode>>::empty(),
    {
        let r = KeybindManager {
            registered_keys: Vec::new(),
            key_states: Vec::new(),
            key_callbacks: Vec::new(),
            hotkey_callbacks: Vec::new(),
        };
        assert(r.listener_keys() =~= Seq::<GameKeyCode>::empty());
        assert(r.hotkey_keys() =~= Seq::<Seq<GameKeyCode>>::empty());
        r
    }

    /// Registers `key` not yet pressed, unless it is registered already.
    fn register(&mut self, key: GameKeyCode)
        requires
            old(self).wf(),
        ensures
            final(self).wf(),
            final(self).keys().contains(key),
            forall|k: GameKeyCode| old(self).keys().contains(k) ==> final(self).keys().contains(k),
            forall|k: GameKeyCode| #[trigger] final(self).keys().contains(k) ==> old(self).keys().contains(k) || k == key,
            final(self).key_callbacks@ == old(self).key_callbacks@,
            final(self).hotkey_callbacks@ == old(self).hotkey_callbacks@,
    {
        let mut i: usize = 0;
        while i < self.registered_keys.len()
            invariant
                i <= self.registered_keys.len(),
                self.registered_keys@ == old(self).registered_keys@,
                self.key_states@ == old(self).key_states@,
                self.key_callbacks@ == old(self).key_callbacks@,
                self.hotkey_callbacks@ == old(self).hotkey_callbacks@,
                old(self).wf(),
                forall|j: int| 0 <= j < i ==> self.registered_keys@[j] != key,
            decreases self.registered_keys.len() - i,
        {
            if self.registered_keys[i] == key {
                assert(self.keys()[i as int] == key);
                return;
            }
            i += 1;
        }
        let ghost before = self.registered_keys@;
        self.registered_keys.push(key);
        self.key_states.push(false);
        assert(self.keys()[before.len() as int] == key);
        assert forall|k: GameKeyCode| old(self).keys().contains(k) implies final(self).keys().contains(k) by {
            let j = choose|j: int| 0 <= j < before.len() && before[j] == k;
            assert(self.registered_keys@[j] == k);
        }
        assert forall|k: GameKeyCode| #[trigger] self.keys().contains(k) implies before.contains(k) || k == key by {
            let j = choose|j: int| 0 <= j < self.registered_keys@.len() && self.registered_keys@[j] == k;
            if j < before.len() {
                assert(before[j] == k);
            }
        }
    }

    /// Adds listener `f` for the transitions of `key`, and registers `key`.
    pub fn add_key_listener(&mut self, key: &GameKeyCode, f: K)
        requires
            old(self).wf(),
        ensures
            final(self).wf(),
            final(self).keys().contains(*key),
            forall|k: GameKeyCode| old(self).keys().contains(k) ==> final(self).keys().contains(k),
            final(self).listener_keys() == old(self).listener_keys().push(*key),
            final(self).hotkey_keys() == old(self).hotkey_keys(),
    {
        self.register(*key);
        let ghost before = self.key_callbacks@;
        self.key_callbacks.push((*key, f));
        assert(self.listener_keys() =~= old(self).listener_keys().push(*key));
    }

    /// Adds listener `f` for hotkey `hotkey`, and registers each of its keys.
    pub fn add_hotkey_listener(&mut self, hotkey: &[GameKeyCode], f: H)
        requires
            old(self).wf(),
        ensures
            final(self).wf(),
            forall|c: int| 0 <= c < hotkey@.len() ==> final(self).keys().contains(#[trigger] hotkey@[c]),
            forall|k: GameKeyCode| old(self).keys().contains(k) ==> final(self).keys().contains(k),
            final(self).listener_keys() == old(self).listener_keys(),
            final(self).hotkey_keys() == old(self).hotkey_keys().push(hotkey@),
    {
        let mut combo: Vec<GameKeyCode> = Vec::new();
        let mut i: usize = 0;
        while i < hotkey.len()
            invariant
                i <= hotkey.len(),
                self.wf(),
                combo@ == hotkey@.subrange(0, i as int),
                forall|c: int| 0 <= c < i ==> self.keys().contains(#[trigger] hotkey@[c]),
                forall|k: GameKeyCode| old(self).keys().contains(k) ==> self.keys().contains(k),
                self.key_callbacks@ == old(self).key_callbacks@,
                self.hotkey_callbacks@ == old(self).hotkey_callbacks@,
            decreases hotkey.len() - i,
        {
            let key = hotkey[i];
            self.register(key);
            combo.push(key);
            i += 1;
            assert(combo@ =~= hotkey@.subrange(0, i as int));
        }
        assert(combo@ =~= hotkey@);
        self.hotkey_callbacks.push((combo, f));
        assert(self.listener_keys() =~= old(self).listener_keys());
        assert(self.hotkey_keys() =~= old(self).hotkey_keys().push(hotkey@));
    }

    /// The registered keys, in registration order: the order in which
    /// `update` takes their pressed states.
    pub fn registered(&self) -> (r: &Vec<GameKeyCode>)
        ensures
            r@ == self.keys(),
    {
        &self.registered_keys
    }

    /// The listener at `i`.
    pub fn key_callback(&self, i: usize) -> (r: &K)
        requires
            i < self.listener_keys().len(),
    {
        &self.key_callbacks[i].1
    }

    /// The hotkey at `i` and its listener.
    pub fn hotkey(&self, i: usize) -> (r: (&Vec<GameKeyCode>, &H))
        requires
            i < self.hotkey_keys().len(),
        ensures
            r.0@ == self.hotkey_keys()[i as int],
    {
        (&self.hotkey_callbacks[i].0, &self.hotkey_callbacks[i].1)
    }

    fn is_held(&self, key: GameKeyCode) -> (r: bool)
        requires
            self.wf(),
        ensures
            r == held(self.keys(), self.states(), key),
    {
        let mut j: usize = 0;
        while j < self.registered_keys.len()
            invariant
                j <= self.registered_keys.len(),
                self.wf(),
                forall|q: int| 0 <= q < j ==> self.registered_keys@[q] != key,
            decreases self.registered_keys.len() - j,
        {
            if self.registered_keys[j] == key {
                proof {
                    if held(self.keys(), self.states(), key) {
                        let q = choose|q: int| 0 <= q < self.keys().len() && self.keys()[q] == key && self.states()[q];
                        assert(q == j);
                    }
                }
                return self.key_states[j];
            }
            j += 1;
        }
        false
    }

    fn listeners_of(&self, key: GameKeyCode) -> (r: Vec<usize>)
        ensures
            lists_listeners(r@, self.listener_keys(), key),
    {
        let mut r: Vec<usize> = Vec::new();
        let mut l: usize = 0;
        while l < self.key_callbacks.len()
            invariant
                l <= self.key_callbacks.len(),
                self.listener_keys().len() == self.key_callbacks@.len(),
                increasing(r@),
                forall|k: int| 0 <= k < r@.len() ==> r@[k] < l && self.listener_keys()[#[trigger] r@[k] as int] == key,
                forall|i: int| 0 <= i < l && #[trigger] self.listener_keys()[i] == key ==> exists|k: int| 0 <= k < r@.len() && r@[k] == i,
            decreases self.key_callbacks.len() - l,
        {
            if self.key_callbacks[l].0 == key {
                let ghost before = r@;
                r.push(l);
                assert forall|i: int| 0 <= i < l + 1 && #[trigger] self.listener_keys()[i] == key implies exists|k: int|
                    0 <= k < r@.len() && r@[k] == i by {
                    if i < l {
                        let k = choose|k: int| 0 <= k < before.len() && before[k] == i;
                        assert(r@[k] == i);
                    } else {
                        assert(r@[before.len() as int] == i);
                    }
                }
            }
            l += 1;
        }
        r
    }

    fn completed_hotkeys(&self, key: GameKeyCode) -> (r: Vec<usize>)
        requires
            self.wf(),
        ensures
            lists_completed(r@, self.hotkey_keys(), key, self.keys(), self.states()),
    {
        let mut r: Vec<usize> = Vec::new();
        let mut h: usize = 0;
        while h < self.hotkey_callbacks.len()
            invariant
                h <= self.hotkey_callbacks.len(),
                self.wf(),
                self.hotkey_keys().len() == self.hotkey_callbacks@.len(),
                increasing(r@),
                forall|k: int| 0 <= k < r@.len() ==> r@[k] < h && completes(self.hotkey_keys()[#[trigger] r@[k] as int], key, self.keys(), self.states()),
                forall|i: int| 0 <= i < h && #[trigger] completes(self.hotkey_keys()[i], key, self.keys(), self.states()) ==> exists|k: int| 0 <= k < r@.len() && r@[k] == i,
            decreases self.hotkey_callbacks.len() - h,
        {
            let combo = &self.hotkey_callbacks[h].0;
            assert(combo@ == self.hotkey_keys()[h as int]);
            let mut contains = false;
            let mut others = true;
            let mut c: usize = 0;
            while c < combo.len()
                invariant
                    c <= combo.len(),
                    self.wf(),
                    contains == combo@.subrange(0, c as int).contains(key),
                    others == (forall|x: int| 0 <= x < c && combo@[x] != key ==> held(self.keys(), self.states(), #[trigger] combo@[x])),
                decreases combo.len() - c,
            {
                let k = combo[c];
                proof {
                    let pre = combo@.subrange(0, c as int);
                    let next = combo@.subrange(0, c + 1);
                    assert(next =~= pre.push(k));
                    if k == key {
                        assert(next[c as int] == key);
                    } else {
                        if next.contains(key) {
                            let x = choose|x: int| 0 <= x < next.len() && next[x] == key;
                            assert(pre[x] == key);
                        }
                        if pre.contains(key) {
                            let x = choose|x: int| 0 <= x < pre.len() && pre[x] == key;
                            assert(next[x] == key);
                        }
                    }
                }
                if k == key {
                    contains = true;
                } else if !self.is_held(k) {
                    others = false;
                }
                c += 1;
            }
            assert(combo@.subrange(0, combo@.len() as int) =~= combo@);
            if contains && others {
                let ghost before = r@;
                r.push(h);
                assert forall|i: int| 0 <= i < h + 1 && #[trigger] completes(self.hotkey_keys()[i], key, self.keys(), self.states()) implies exists|k: int|
                    0 <= k < r@.len() && r@[k] == i by {
                    if i < h {
                        let k = choose|k: int| 0 <= k < before.len() && before[k] == i;
                        assert(r@[k] == i);
                    } else {
                        assert(r@[before.len() as int] == i);
                    }
                }
            }
            h += 1;
        }
        r
    }
    /// Takes the pressed state of each registered key, in registration
    /// order, and returns what the transitions fire, key by key in that
    /// order. A key's new state already counts for the keys after it.
    pub fn update(&mut self, down: &[bool]) -> (r: Vec<KeyDispatch>)
        requires
            old(self).wf(),
            down@.len() == old(self).keys().len(),
        ensures
            final(self).wf(),
            final(self).keys() == old(self).keys(),
            final(self).listener_keys() == old(self).listener_keys(),
            final(self).hotkey_keys() == old(self).hotkey_keys(),
            final(self).states() == down@,
            exists|idx: Seq<usize>|
                #[trigger] lists_changes(idx, old(self).states(), down@)
                && idx.len() == r@.len()
                && forall|k: int| 0 <= k < r@.len() ==> #[trigger] dispatches(
                    r@[k],
                    idx[k] as int,
                    old(self).keys(),
                    old(self).states(),
                    down@,
                    old(self).listener_keys(),
                    old(self).hotkey_keys(),
                ),
    {
        let mut out: Vec<KeyDispatch> = Vec::new();
        let ghost mut idx: Seq<usize> = Seq::empty();
        let ghost old_states = self.key_states@;
        let mut i: usize = 0;
        while i < self.registered_keys.len()
            invariant
                i <= self.registered_keys.len(),
                self.wf(),
                down@.len() == self.registered_keys@.len(),
                self.keys() == old(self).keys(),
                self.listener_keys() == old(self).listener_keys(),
                self.hotkey_keys() == old(self).hotkey_keys(),
                old_states == old(self).states(),
                self.states() == states_at(old_states, down@, i as int),
                idx.len() == out@.len(),
                increasing(idx),
                forall|k: int| 0 <= k < idx.len() ==> idx[k] < i && down@[#[trigger] idx[k] as int] != old_states[idx[k] as int],
                forall|j: int| 0 <= j < i && #[trigger] down@[j] != old_states[j] ==> exists|k: int| 0 <= k < idx.len() && idx[k] == j,
                forall|k: int| 0 <= k < out@.len() ==> #[trigger] dispatches(
                    out@[k],
                    idx[k] as int,
                    old(self).keys(),
                    old_states,
                    down@,
                    old(self).listener_keys(),
                    old(self).hotkey_keys(),
                ),
            decreases self.registered_keys.len() - i,
        {
            let key = self.registered_keys[i];
            if down[i] != self.key_states[i] {
                let listeners = self.listeners_of(key);
                let hotkeys = self.completed_hotkeys(key);
                let state = if down[i] { KeyState::KeyDown } else { KeyState::KeyUp };
                let ghost before = idx;
                out.push(KeyDispatch { event: KeyEvent { key, state }, listeners, hotkeys });
                proof {
                    idx = idx.push(i);
                    assert forall|j: int| 0 <= j < i + 1 && #[trigger] down@[j] != old_states[j] implies exists|k: int|
                        0 <= k < idx.len() && idx[k] == j by {
                        if j < i {
                            let k = choose|k: int| 0 <= k < before.len() && before[k] == j;
                            assert(idx[k] == j);
                        } else {
                            assert(idx[before.len() as int] == j);
                        }
                    }
                    assert forall|k: int| 0 <= k < out@.len() implies #[trigger] dispatches(
                        out@[k],
                        idx[k] as int,
                        old(self).keys(),
                        old_states,
                        down@,
                        old(self).listener_keys(),
                        old(self).hotkey_keys(),
                    ) by {
                        if k == out@.len() - 1 {
                            assert(idx[k] == i);
                        } else {
                            assert(idx[k] == before[k]);
                        }
                    }
                }
            } else {
                proof {
                    assert forall|j: int| 0 <= j < i + 1 && #[trigger] down@[j] != old_states[j] implies exists|k: int|
                        0 <= k < idx.len() && idx[k] == j by {
                        assert(j < i);
                    }
                }
            }
            self.key_states.set(i, down[i]);
            i += 1;
            assert(self.states() =~= states_at(old_states, down@, i as int));
        }
        assert(self.states() =~= down@);
        assert(lists_changes(idx, old(self).states(), down@));
        out
    }
}

/// `idx` lists, in increasing order, the keys whose pressed state changed.
pub open spec fn lists_changes(idx: Seq<usize>, old: Seq<bool>, down: Seq<bool>) -> bool {
    &&& increasing(idx)
    &&& forall|k: int| 0 <= k < idx.len() ==> idx[k] < down.len() && down[#[trigger] idx[k] as int] != old[idx[k] as int]
    &&& forall|i: int| 0 <= i < down.len() && #[trigger] down[i] != old[i] ==> exists|k: int| 0 <= k < idx.len() && idx[k] == i
}

/// Dispatch `d` is what the transition of key `i` fires.
pub open spec fn dispatches(
    d: KeyDispatch,
    i: int,
    keys: Seq<GameKeyCode>,
    old: Seq<bool>,
    down: Seq<bool>,
    listener_keys: Seq<GameKeyCode>,
    hotkey_keys: Seq<Seq<GameKeyCode>>,
) -> bool {
    &&& d.event == KeyEvent { key: keys[i], state: state_of(down[i]) }
    &&& lists_listeners(d.listeners@, listener_keys, keys[i])
    &&& lists_completed(d.hotkeys@, hotkey_keys, keys[i], keys, states_at(old, down, i))
}

} // verus!
