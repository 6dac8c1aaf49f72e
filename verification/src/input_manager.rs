use vstd::prelude::*;

use crate::game::KeyboardEvents;

verus! {

/// A keyboard key, named for the ones the game reads; any other key
/// carries its raw code so the held-set tracks it faithfully.
#[derive(Clone, Copy, Debug, PartialEq, Eq, Structural)]
pub enum Key {
    Left,
    Right,
    Space,
    Other(u32),
}

/// Tracks the set of currently-held keys from press and release
/// notifications.
pub struct InputManager {
    pub keys: Vec<Key>,
}

impl InputManager {
    /// Whether `key` is in the held-set.
    pub open spec fn spec_is_held(self, key: Key) -> bool {
        self.keys@.contains(key)
    }

    pub fn new() -> (m: InputManager)
        ensures
            forall|k: Key| !m.spec_is_held(k),
    {
        InputManager { keys: Vec::new() }
    }

    fn contains_key(&self, key: Key) -> (held: bool)
        ensures
            held == self.spec_is_held(key),
    {
        let mut i: usize = 0;
        while i < self.keys.len()
            invariant
                i <= self.keys.len(),
                forall|j: int| 0 <= j < i ==> self.keys@[j] != key,
            decreases self.keys.len() - i,
        {
            if self.keys[i] == key {
                return true;
            }
            i = i + 1;
        }
        false
    }

    /// Adds `key` to the held-set; pressing an already-held key
    /// changes nothing.
    pub fn key_pressed(&mut self, key: Key)
        ensures
            forall|k: Key|
                final(self).spec_is_held(k) == (old(self).spec_is_held(k) || k == key),
    {
        if !self.contains_key(key) {
            self.keys.push(key);
            proof {
                let s0 = old(self).keys@;
                let s1 = self.keys@;
                assert forall|k: Key| s1.contains(k) implies (s0.contains(k) || k == key) by {
                    let j = choose|j: int| 0 <= j < s1.len() && s1[j] == k;
                    if j < s0.len() {
                        assert(s0[j] == k);
                    }
                }
                assert forall|k: Key| s0.contains(k) implies s1.contains(k) by {
                    let j = choose|j: int| 0 <= j < s0.len() && s0[j] == k;
                    assert(s1[j] == k);
                }
                assert(s1[s0.len() as int] == key);
            }
        }
    }

    /// Removes `key` from the held-set; releasing a key that is not
    /// held changes nothing.
    pub fn key_released(&mut self, key: Key)
        ensures
            forall|k: Key|
                final(self).spec_is_held(k) == (old(self).spec_is_held(k) && k != key),
    {
        let ghost s = self.keys@;
        let mut kept: Vec<Key> = Vec::new();
        let mut i: usize = 0;
        while i < self.keys.len()
            invariant
                i <= self.keys.len(),
                self.keys@ == s,
                forall|k: Key| kept@.contains(k) == (s.take(i as int).contains(k) && k != key),
            decreases self.keys.len() - i,
        {
            let ghost kept0 = kept@;
            let current = self.keys[i];
            if current != key {
                kept.push(current);
            }
            proof {
                let t0 = s.take(i as int);
                let t1 = s.take(i as int + 1);
                assert(t1 =~= t0.push(s[i as int]));
                assert forall|k: Key|
                    kept@.contains(k) == (t1.contains(k) && k != key) by {
                    if kept@.contains(k) {
                        let j = choose|j: int| 0 <= j < kept@.len() && kept@[j] == k;
                        if current != key && j == kept0.len() {
                            assert(k == current);
                            assert(t1[i as int] == k);
                            assert(t1.contains(k));
                        } else {
                            assert(kept0[j] == k);
                            assert(kept0.contains(k));
                            assert(t0.contains(k));
                            let m = choose|m: int| 0 <= m < t0.len() && t0[m] == k;
                            assert(t1[m] == k);
                            assert(t1.contains(k));
                        }
                    }
                    if t1.contains(k) && k != key {
                        let m = choose|m: int| 0 <= m < t1.len() && t1[m] == k;
                        if m < i as int {
                            assert(t0[m] == k);
                            assert(t0.contains(k));
                            assert(kept0.contains(k));
                            let j = choose|j: int| 0 <= j < kept0.len() && kept0[j] == k;
                            assert(kept@[j] == k);
                            assert(kept@.contains(k));
                        } else {
                            assert(k == current);
                            assert(kept@[kept@.len() - 1] == k);
                            assert(kept@.contains(k));
                        }
                    }
                }
            }
            i = i + 1;
        }
        proof {
            assert(s.take(s.len() as int) =~= s);
        }
        self.keys = kept;
    }

    pub fn is_key_pressed(&self, key: Key) -> (held: bool)
        ensures
            held == self.spec_is_held(key),
    {
        self.contains_key(key)
    }

    /// Routes one raw keyboard notification into the held-set.
    pub fn handle_event(&mut self, key: Key, event: KeyboardEvents)
        ensures
            forall|k: Key|
                final(self).spec_is_held(k) == match event {
                    KeyboardEvents::PressEvent => old(self).spec_is_held(k) || k == key,
                    KeyboardEvents::ReleaseEvent => old(self).spec_is_held(k) && k != key,
                },
    {
        match event {
            KeyboardEvents::PressEvent => self.key_pressed(key),
            KeyboardEvents::ReleaseEvent => self.key_released(key),
        }
    }
}

} // verus!
