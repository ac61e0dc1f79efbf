//! Key state tracking.
//!
//! A key is identified by a `u32` code. Letter keys use the code of their
//! upper-case ASCII letter (`'W'` is 87), so bindings read naturally.
use std::collections::HashMap;
use vstd::prelude::*;

verus! {

broadcast use vstd::std_specs::hash::group_hash_axioms;

/// The last reported state of a key.
#[derive(Clone, Copy, Debug, PartialEq, Eq, Structural)]
pub enum KeyState {
    Pressed,
    Released,
}

/// Whether `key` was last reported pressed.
pub open spec fn key_down(keys: Map<u32, KeyState>, key: u32) -> bool {
    keys.contains_key(key) && keys[key] == KeyState::Pressed
}

/// Whether `key` was last reported released.
pub open spec fn key_up(keys: Map<u32, KeyState>, key: u32) -> bool {
    keys.contains_key(key) && keys[key] == KeyState::Released
}

/// The most recent state reported for each key seen so far.
pub struct Keyboard {
    keys: HashMap<u32, KeyState>,
}

impl View for Keyboard {
    type V = Map<u32, KeyState>;

    closed spec fn view(&self) -> Map<u32, KeyState> {
        self.keys@
    }
}

impl Keyboard {
    /// A keyboard on which no key has been reported yet.
    pub fn new() -> (r: Keyboard)
        ensures
            r@ == Map::<u32, KeyState>::empty(),
    {
        Keyboard { keys: HashMap::new() }
    }

    /// Records `state` as the latest state of `key`.
    pub fn update(&mut self, key: u32, state: KeyState)
        ensures
            final(self)@ == old(self)@.insert(key, state),
    {
        self.keys.insert(key, state);
    }

    /// Whether `key` is currently held down.
    pub fn is_pressed(&self, key: u32) -> (r: bool)
        ensures
            r == key_down(self@, key),
    {
        match self.keys.get(&key) {
            Some(KeyState::Pressed) => true,
            _ => false,
        }
    }

    /// Whether `key` was pressed and has since been let go.
    ///
    /// A key that was never reported is neither pressed nor released.
    pub fn is_released(&self, key: u32) -> (r: bool)
        ensures
            r == key_up(self@, key),
    {
        match self.keys.get(&key) {
            Some(KeyState::Released) => true,
            _ => false,
        }
    }
}

} // verus!
