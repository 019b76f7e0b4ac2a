//! The key engine: listeners on single keys and on key combinations, with
//! events that carry the keys they concern.
use vstd::prelude::*;

use crate::keybind::{KeyDispatch, KeyState, KeybindManager};
use crate::keys::GameKeyCode;

verus! {

/// A transition of a key or a combination.
#[derive(Debug, Clone, Copy, PartialEq, Eq, Hash, Structural)]
pub enum KeyStateLL {
    KeyDown,
    KeyUp,
}

/// The keys concerned and their transition.
#[derive(Debug, Clone, PartialEq, Eq, Hash)]
pub struct KeyEvent {
    pub keys: Vec<GameKeyCode>,
    pub state: KeyStateLL,
}

pub open spec fn state_ll(s: KeyState) -> KeyStateLL {
    match s {
        KeyState::KeyDown => KeyStateLL::KeyDown,
        KeyState::KeyUp => KeyStateLL::KeyUp,
    }
}

/// Listeners on keys (one key) and on combinations (several keys), all of
/// type `C`.
pub struct KeyBindEngine<C> {
    pub manager: KeybindManager<C, C>,
}

impl<C> KeyBindEngine<C> {
    pub fn new() -> (r: Self)
        ensures
            r.manager.wf(),
            r.manager.keys() == Seq::<GameKeyCode>::empty(),
            r.manager.listener_keys() == Seq::<GameKeyCode>::empty(),
            r.manager.hotkey_keys() == Seq::<Seq<GameKeyCode>>::empty(),
    {
        KeyBindEngine { manager: KeybindManager::new() }
    }

    /// Adds `f` for `keys`: a key listener for one key, a combination
    /// listener for several; nothing for none.
    pub fn add_key_listener(&mut self, keys: &[GameKeyCode], f: C)
        requires
            old(self).manager.wf(),
        ensures
            final(self).manager.wf(),
            keys@.len() == 0 ==> final(self).manager.listener_keys() == old(self).manager.listener_keys()
                && final(self).manager.hotkey_keys() == old(self).manager.hotkey_keys()
                && final(self).manager.keys() == old(self).manager.keys(),
            keys@.len() == 1 ==> final(self).manager.listener_keys() == old(self).manager.listener_keys().push(keys@[0])
                && final(self).manager.hotkey_keys() == old(self).manager.hotkey_keys(),
            keys@.len() > 1 ==> final(self).manager.listener_keys() == old(self).manager.listener_keys()
                && final(self).manager.hotkey_keys() == old(self).manager.hotkey_keys().push(keys@),
            forall|c: int| 0 <= c < keys@.len() ==> final(self).manager.keys().contains(#[trigger] keys@[c]),
    {
        if keys.len() == 1 {
            self.manager.add_key_listener(&keys[0], f);
        } else if keys.len() > 1 {
            self.manager.add_hotkey_listener(keys, f);
        }
    }

    /// Takes the pressed state of each registered key and returns what the
    /// transitions fire (see `KeybindManager::update`).
    pub fn update(&mut self, down: &[bool]) -> (r: Vec<KeyDispatch>)
        requires
            old(self).manager.wf(),
            down@.len() == old(self).manager.keys().len(),
        ensures
            final(self).manager.wf(),
            final(self).manager.keys() == old(self).manager.keys(),
            final(self).manager.listener_keys() == old(self).manager.listener_keys(),
            final(self).manager.hotkey_keys() == old(self).manager.hotkey_keys(),
            final(self).manager.states() == down@,
    {
        self.manager.update(down)
    }
}

} // verus!
