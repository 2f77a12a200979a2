//! Which keys are held down.

use std::collections::HashSet;
use vstd::prelude::*;

verus! {

broadcast use vstd::std_specs::hash::group_hash_axioms;

/// The code of the space bar.
pub const KEY_SPACE: u32 = 32;

/// The code of the escape key.
pub const KEY_ESCAPE: u32 = 27;

/// The code of the letter key `C`.
pub const KEY_C: u32 = 67;

/// The code of the letter key `X`.
pub const KEY_X: u32 = 88;

/// The code of the letter key `W`.
pub const KEY_W: u32 = 87;

/// The code of the letter key `A`.
pub const KEY_A: u32 = 65;

/// The code of the letter key `S`.
pub const KEY_S: u32 = 83;

/// The code of the letter key `D`.
pub const KEY_D: u32 = 68;

/// The code of the up arrow.
pub const KEY_UP: u32 = 256;

/// The code of the down arrow.
pub const KEY_DOWN: u32 = 257;

/// The code of the left arrow.
pub const KEY_LEFT: u32 = 258;

/// The code of the right arrow.
pub const KEY_RIGHT: u32 = 259;

/// One keyboard event: the key, where the platform names one, and whether it
/// went down or up.
#[derive(Clone, Copy, PartialEq, Eq, Structural, Debug)]
pub struct KeyboardInput {
    pub virtual_keycode: Option<u32>,
    pub pressed: bool,
}

/// The set of keys that are held down.
pub struct KeyState {
    state: HashSet<u32>,
}

impl KeyState {
    /// The codes of the keys that are held down.
    pub closed spec fn view(&self) -> Set<u32> {
        self.state@
    }

    /// Builds the state in which no key is held down.
    pub fn new() -> (r: KeyState)
        ensures
            r@ == Set::<u32>::empty(),
    {
        KeyState { state: HashSet::new() }
    }

    /// Whether `key` is held down.
    pub fn is_pressed(&self, key: &u32) -> (r: bool)
        ensures
            r == self@.contains(*key),
    {
        self.state.contains(key)
    }

    /// Records that `key` went down (`pressed`) or up.
    pub fn on_key_change(&mut self, key: u32, pressed: bool)
        ensures
            final(self)@ == if pressed {
                old(self)@.insert(key)
            } else {
                old(self)@.remove(key)
            },
    {
        if pressed {
            self.state.insert(key);
        } else {
            self.state.remove(&key);
        }
    }
}

} // verus!
