//! The input state of one frame: the mouse and the keyboard.
//!
//! `is_pressed` and `is_released` hold for the single frame in which a key or
//! button changed; `is_down` and `is_up` hold for as long as it stays so.
//! Components read the input during the frame; `transition_states` is called
//! once the frame's logic has run.
use vstd::prelude::*;
use crate::key_state_map::{next_state, KeyState};
use crate::keyboard::{self, Keyboard};
use crate::mouse::{self, Mouse};

verus! {

/// The mouse and the keyboard.
pub struct Input {
    pub mouse: Mouse,
    pub keyboard: Keyboard,
}

impl Input {
    /// Both parts are well formed.
    pub open spec fn wf(&self) -> bool {
        self.mouse.wf() && self.keyboard.wf()
    }

    /// Input with every key and button `Up` and the cursor at the origin.
    pub fn new() -> (r: Self)
        ensures
            r.wf(),
            forall|b: mouse::Button| #[trigger] r.mouse.spec_state(b) == KeyState::Up,
            forall|k: keyboard::Button| #[trigger] r.keyboard.spec_state(k) == KeyState::Up,
    {
        Input { mouse: Mouse::new(), keyboard: Keyboard::new() }
    }

    /// Ends the frame for the mouse and the keyboard: `Pressed` becomes `Down` and
    /// `Released` becomes `Up`.
    pub fn transition_states(&mut self)
        requires
            old(self).wf(),
        ensures
            final(self).wf(),
            final(self).mouse.spec_position() == old(self).mouse.spec_position(),
            forall|b: mouse::Button| #[trigger] final(self).mouse.spec_state(b)
                == next_state(old(self).mouse.spec_state(b)),
            forall|k: keyboard::Button| #[trigger] final(self).keyboard.spec_state(k)
                == next_state(old(self).keyboard.spec_state(k)),
    {
        self.mouse.transition_states();
        self.keyboard.transition_states();
    }
}

impl Default for Input {
    fn default() -> (r: Self)
        ensures
            r.wf(),
            forall|b: mouse::Button| #[trigger] r.mouse.spec_state(b) == KeyState::Up,
            forall|k: keyboard::Button| #[trigger] r.keyboard.spec_state(k) == KeyState::Up,
    {
        Input::new()
    }
}

} // verus!
