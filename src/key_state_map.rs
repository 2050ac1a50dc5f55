//! The four-state model of a set of keys or buttons.
//!
//! A key is `Up` until it goes down. The frame in which it goes down it is
//! `Pressed`; from the next frame on it is `Down`. The frame in which it comes
//! up it is `Released`, and `Up` again after that.
use vstd::prelude::*;
use vstd::laws_eq::obeys_concrete_eq;
use vstd::std_specs::cmp::PartialEqSpec;

verus! {

/// The state of one key in the current frame.
#[derive(Debug, Clone, Copy, PartialEq, Eq, Structural)]
pub enum KeyState {
    Up,
    Down,
    Pressed,
    Released,
}

/// The state that a key takes when a frame ends.
pub open spec fn next_state(s: KeyState) -> KeyState {
    match s {
        KeyState::Pressed => KeyState::Down,
        KeyState::Released => KeyState::Up,
        _ => s,
    }
}

/// The state of `key` in a map of states: a key that has never been seen is `Up`.
pub open spec fn state_in<T>(m: Map<T, KeyState>, key: T) -> KeyState {
    if m.contains_key(key) {
        m[key]
    } else {
        KeyState::Up
    }
}

/// The states of the keys that have been seen, one entry per key.
pub struct KeyStateMap<T> {
    keys: Vec<(T, KeyState)>,
}

impl<T> View for KeyStateMap<T> {
    type V = Map<T, KeyState>;

    closed spec fn view(&self) -> Map<T, KeyState> {
        Map::new(
            |k: T| exists|i: int| 0 <= i < self.keys@.len() && self.keys@[i].0 == k,
            |k: T|
                self.keys@[choose|i: int| 0 <= i < self.keys@.len() && self.keys@[i].0 == k].1,
        )
    }
}

impl<T> KeyStateMap<T> {
    /// No key is held twice.
    pub closed spec fn wf(&self) -> bool {
        forall|i: int, j: int|
            0 <= i < self.keys@.len() && 0 <= j < self.keys@.len() && i != j
                ==> self.keys@[i].0 != self.keys@[j].0
    }

    proof fn lemma_entry(&self, i: int)
        requires
            self.wf(),
            0 <= i < self.keys@.len(),
        ensures
            self@.contains_key(self.keys@[i].0),
            self@[self.keys@[i].0] == self.keys@[i].1,
    {
        let k = self.keys@[i].0;
        assert(exists|j: int| 0 <= j < self.keys@.len() && self.keys@[j].0 == k);
    }
}

impl<T: Copy + PartialEq> KeyStateMap<T> {
    /// A map in which every key is `Up`.
    pub fn new() -> (r: Self)
        ensures
            r.wf(),
            r@ == Map::<T, KeyState>::empty(),
    {
        let r = KeyStateMap { keys: Vec::new() };
        assert(r@ =~= Map::<T, KeyState>::empty());
        r
    }

    /// The position of `key`, if it has been seen.
    fn find(&self, key: &T) -> (r: Option<usize>)
        requires
            self.wf(),
            obeys_concrete_eq::<T>(),
        ensures
            match r {
                Some(i) => i < self.keys@.len() && self.keys@[i as int].0 == *key,
                None => !self@.contains_key(*key),
            },
    {
        proof {
            reveal(obeys_concrete_eq);
        }
        let mut i: usize = 0;
        while i < self.keys.len()
            invariant
                i <= self.keys@.len(),
                obeys_concrete_eq::<T>(),
                T::obeys_eq_spec(),
                forall|x: T, y: T| x.eq_spec(&y) <==> (x == y),
                forall|j: int| 0 <= j < i ==> self.keys@[j].0 != *key,
            decreases self.keys@.len() - i,
        {
            if self.keys[i].0 == *key {
                return Some(i);
            }
            i = i + 1;
        }
        None
    }

    /// The state of `key` in the current frame.
    pub fn state(&self, key: &T) -> (r: KeyState)
        requires
            self.wf(),
            obeys_concrete_eq::<T>(),
        ensures
            r == state_in(self@, *key),
    {
        match self.find(key) {
            Some(i) => {
                proof {
                    self.lemma_entry(i as int);
                }
                self.keys[i].1
            },
            None => KeyState::Up,
        }
    }
}


impl<T: Copy + PartialEq> KeyStateMap<T> {
    /// Whether `key` went down in this frame.
    pub fn is_pressed(&self, key: &T) -> (r: bool)
        requires
            self.wf(),
            obeys_concrete_eq::<T>(),
        ensures
            r == (state_in(self@, *key) == KeyState::Pressed),
    {
        let state = self.state(key);
        state == KeyState::Pressed
    }

    /// Whether `key` is held: it went down in this frame or before.
    pub fn is_down(&self, key: &T) -> (r: bool)
        requires
            self.wf(),
            obeys_concrete_eq::<T>(),
        ensures
            r == (state_in(self@, *key) == KeyState::Pressed || state_in(self@, *key)
                == KeyState::Down),
    {
        let state = self.state(key);
        state == KeyState::Pressed || state == KeyState::Down
    }

    /// Whether `key` came up in this frame.
    pub fn is_released(&self, key: &T) -> (r: bool)
        requires
            self.wf(),
            obeys_concrete_eq::<T>(),
        ensures
            r == (state_in(self@, *key) == KeyState::Released),
    {
        let state = self.state(key);
        state == KeyState::Released
    }

    /// Whether `key` is not held: it came up in this frame or before, or never went down.
    pub fn is_up(&self, key: &T) -> (r: bool)
        requires
            self.wf(),
            obeys_concrete_eq::<T>(),
        ensures
            r == (state_in(self@, *key) == KeyState::Released || state_in(self@, *key)
                == KeyState::Up),
    {
        let state = self.state(key);
        state == KeyState::Released || state == KeyState::Up
    }

    /// Sets the state of `key`, leaving every other key as it was.
    fn set(&mut self, key: &T, state: KeyState)
        requires
            old(self).wf(),
            obeys_concrete_eq::<T>(),
        ensures
            final(self).wf(),
            final(self)@ == old(self)@.insert(*key, state),
    {
        match self.find(key) {
            Some(i) => {
                let ghost before = self.keys@;
                self.keys.set(i, (*key, state));
                proof {
                    let after = self.keys@;
                    assert forall|k: T| #[trigger] self@.contains_key(k) == old(self)@.insert(*key, state).contains_key(k) by {
                        if exists|j: int| 0 <= j < before.len() && before[j].0 == k {
                            let j = choose|j: int| 0 <= j < before.len() && before[j].0 == k;
                            assert(after[j].0 == k);
                        }
                        if k == *key {
                            assert(after[i as int].0 == k);
                        }
                    }
                    assert forall|k: T| #[trigger] self@.contains_key(k) implies self@[k] == old(self)@.insert(*key, state)[k] by {
                        let j = choose|j: int| 0 <= j < after.len() && after[j].0 == k;
                        if k == *key {
                            assert(j == i);
                        } else {
                            old(self).lemma_entry(j);
                        }
                    }
                    assert(self@ =~= old(self)@.insert(*key, state));
                }
            },
            None => {
                let ghost before = self.keys@;
                self.keys.push((*key, state));
                proof {
                    let after = self.keys@;
                    let n = before.len() as int;
                    assert forall|k: T| #[trigger] self@.contains_key(k) == old(self)@.insert(*key, state).contains_key(k) by {
                        if exists|j: int| 0 <= j < before.len() && before[j].0 == k {
                            let j = choose|j: int| 0 <= j < before.len() && before[j].0 == k;
                            assert(after[j].0 == k);
                        }
                        if k == *key {
                            assert(after[n].0 == k);
                        }
                    }
                    assert forall|k: T| #[trigger] self@.contains_key(k) implies self@[k] == old(self)@.insert(*key, state)[k] by {
                        let j = choose|j: int| 0 <= j < after.len() && after[j].0 == k;
                        if k == *key {
                            assert(j == n);
                        } else {
                            assert(j < n);
                            old(self).lemma_entry(j);
                        }
                    }
                    assert(self@ =~= old(self)@.insert(*key, state));
                }
            },
        }
    }

    /// Records that `key` went down: it is `Pressed` until the frame ends.
    pub fn handle_key_down(&mut self, key: &T)
        requires
            old(self).wf(),
            obeys_concrete_eq::<T>(),
        ensures
            final(self).wf(),
            final(self)@ == old(self)@.insert(*key, KeyState::Pressed),
    {
        self.set(key, KeyState::Pressed);
    }

    /// Records that `key` came up: it is `Released` until the frame ends.
    pub fn handle_key_up(&mut self, key: &T)
        requires
            old(self).wf(),
            obeys_concrete_eq::<T>(),
        ensures
            final(self).wf(),
            final(self)@ == old(self)@.insert(*key, KeyState::Released),
    {
        self.set(key, KeyState::Released);
    }

    /// Ends the frame: `Pressed` keys become `Down` and `Released` keys become `Up`.
    pub fn transition_states(&mut self)
        requires
            old(self).wf(),
        ensures
            final(self).wf(),
            final(self)@ == old(self)@.map_values(|s: KeyState| next_state(s)),
    {
        let ghost before = self.keys@;
        let mut i: usize = 0;
        while i < self.keys.len()
            invariant
                i <= self.keys@.len(),
                self.keys@.len() == before.len(),
                forall|j: int| 0 <= j < before.len() ==> self.keys@[j].0 == before[j].0,
                forall|j: int| 0 <= j < i ==> self.keys@[j].1 == next_state(before[j].1),
                forall|j: int| i <= j < before.len() ==> self.keys@[j].1 == before[j].1,
            decreases self.keys@.len() - i,
        {
            let (key, state) = self.keys[i];
            let next = match state {
                KeyState::Pressed => KeyState::Down,
                KeyState::Released => KeyState::Up,
                _ => state,
            };
            self.keys.set(i, (key, next));
            i = i + 1;
        }
        proof {
            let after = self.keys@;
            assert forall|k: T| #[trigger] self@.contains_key(k) == old(self)@.contains_key(k) by {
                if exists|j: int| 0 <= j < before.len() && before[j].0 == k {
                    let j = choose|j: int| 0 <= j < before.len() && before[j].0 == k;
                    assert(after[j].0 == k);
                }
                if exists|j: int| 0 <= j < after.len() && after[j].0 == k {
                    let j = choose|j: int| 0 <= j < after.len() && after[j].0 == k;
                    assert(before[j].0 == k);
                }
            }
            assert(self.wf());
            assert forall|k: T| #[trigger] self@.contains_key(k) implies self@[k] == next_state(old(self)@[k]) by {
                let j = choose|j: int| 0 <= j < after.len() && after[j].0 == k;
                old(self).lemma_entry(j);
            }
            assert(self@ =~= old(self)@.map_values(|s: KeyState| next_state(s)));
        }
    }
}

impl<T: Copy + PartialEq> Default for KeyStateMap<T> {
    fn default() -> (r: Self)
        ensures
            r.wf(),
            r@ == Map::<T, KeyState>::empty(),
    {
        Self::new()
    }
}

/// A key that starts `Up` goes through a full cycle: down makes it `Pressed`
/// (pressed and down), the end of that frame makes it `Down` (down, not pressed),
/// up makes it `Released` (released and up), and the end of that frame makes it
/// `Up` again.
pub proof fn lemma_key_cycle<T>(m: Map<T, KeyState>, key: T)
    requires
        state_in(m, key) == KeyState::Up,
    ensures
        ({
            let pressed = m.insert(key, KeyState::Pressed);
            let down = pressed.map_values(|s: KeyState| next_state(s));
            let released = down.insert(key, KeyState::Released);
            let up = released.map_values(|s: KeyState| next_state(s));
            &&& state_in(pressed, key) == KeyState::Pressed
            &&& state_in(down, key) == KeyState::Down
            &&& state_in(released, key) == KeyState::Released
            &&& state_in(up, key) == KeyState::Up
        }),
{
}

/// What happens to one key leaves every other key as it was: a key going down or
/// up changes no other key's state.
pub proof fn lemma_keys_independent<T>(m: Map<T, KeyState>, a: T, b: T, s: KeyState)
    requires
        a != b,
    ensures
        state_in(m.insert(a, s), b) == state_in(m, b),
{
}

} // verus!
