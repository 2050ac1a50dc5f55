//! The buttons of a mouse and the position of its cursor.
use vstd::prelude::*;
use vstd::string::StringExecFns;
use crate::error::Error;
use crate::key_state_map::{next_state, state_in, KeyState, KeyStateMap};
use crate::text::{decimal, decimal_of};
use crate::vertex2::Vertex2;

verus! {

broadcast use vstd::laws_eq::group_laws_eq;

/// A button of the mouse.
#[derive(Debug, Eq, PartialEq, Hash, Clone, Copy, Structural)]
pub enum Button {
    LMB,
    MMB,
    RMB,
}

/// The button that a browser button number names, if any.
pub open spec fn button_of_number(n: i16) -> Option<Button> {
    if n == 0 {
        Some(Button::LMB)
    } else if n == 1 {
        Some(Button::MMB)
    } else if n == 2 {
        Some(Button::RMB)
    } else {
        None
    }
}

/// The text of the error for a button number that names no button.
pub open spec fn unsupported_button_message(n: i16) -> Seq<char> {
    "Unsupported mouse key code: '"@ + decimal_of(n as int) + "'"@
}

/// The position of a button in the list of buttons.
pub open spec fn spec_index(b: Button) -> u8 {
    match b {
        Button::LMB => 0,
        Button::MMB => 1,
        Button::RMB => 2,
    }
}

impl Button {
    /// The button that a browser button number names; an error for any other number.
    pub fn new(key_code: i16) -> (r: Result<Button, Error>)
        ensures
            match button_of_number(key_code) {
                Some(b) => r == Ok::<Button, Error>(b),
                None => r.is_err() && r->Err_0.spec_message() == unsupported_button_message(key_code),
            },
    {
        if key_code == 0 {
            Ok(Button::LMB)
        } else if key_code == 1 {
            Ok(Button::MMB)
        } else if key_code == 2 {
            Ok(Button::RMB)
        } else {
            let mut message = String::from_str("Unsupported mouse key code: '");
            let number = decimal(key_code);
            message.append(number.as_str());
            message.append("'");
            Err(Error::Generic(message))
        }
    }

    /// The position of the button in the list of buttons.
    pub fn index(&self) -> (r: u8)
        ensures
            r == spec_index(*self),
    {
        match self {
            Button::LMB => 0,
            Button::MMB => 1,
            Button::RMB => 2,
        }
    }
}

/// The state of the mouse buttons and where the cursor is.
pub struct Mouse {
    state_map: KeyStateMap<u8>,
    position: Vertex2<i32>,
}

impl Mouse {
    /// The map is well formed.
    pub closed spec fn wf(&self) -> bool {
        self.state_map.wf()
    }

    /// The state of `button` in the current frame.
    pub closed spec fn spec_state(&self, button: Button) -> KeyState {
        state_in(self.state_map@, spec_index(button))
    }

    /// Where the cursor was last seen.
    pub closed spec fn spec_position(&self) -> Vertex2<i32> {
        self.position
    }

    /// A mouse with every button `Up` and the cursor at the origin.
    pub fn new() -> (r: Self)
        ensures
            r.wf(),
            forall|b: Button| #[trigger] r.spec_state(b) == KeyState::Up,
            r.spec_position() == (Vertex2 { x: 0i32, y: 0i32 }),
    {
        Mouse { state_map: KeyStateMap::new(), position: Vertex2::new(0, 0) }
    }

    /// Where the cursor was last seen.
    pub fn position(&self) -> (r: Vertex2<i32>)
        ensures
            r == self.spec_position(),
    {
        self.position
    }

    /// Records that the cursor moved to `(x, y)`.
    pub fn handle_move(&mut self, x: i32, y: i32)
        requires
            old(self).wf(),
        ensures
            final(self).wf(),
            final(self).spec_position() == (Vertex2 { x, y }),
            forall|b: Button| #[trigger] final(self).spec_state(b) == old(self).spec_state(b),
    {
        self.position = Vertex2::new(x, y);
    }

    /// Whether `button` went down in this frame.
    pub fn is_pressed(&self, button: Button) -> (r: bool)
        requires
            self.wf(),
        ensures
            r == (self.spec_state(button) == KeyState::Pressed),
    {
        self.state_map.is_pressed(&button.index())
    }

    /// Whether `button` is held.
    pub fn is_down(&self, button: Button) -> (r: bool)
        requires
            self.wf(),
        ensures
            r == (self.spec_state(button) == KeyState::Pressed || self.spec_state(button)
                == KeyState::Down),
    {
        self.state_map.is_down(&button.index())
    }

    /// Whether `button` came up in this frame.
    pub fn is_released(&self, button: Button) -> (r: bool)
        requires
            self.wf(),
        ensures
            r == (self.spec_state(button) == KeyState::Released),
    {
        self.state_map.is_released(&button.index())
    }

    /// Whether `button` is not held.
    pub fn is_up(&self, button: Button) -> (r: bool)
        requires
            self.wf(),
        ensures
            r == (self.spec_state(button) == KeyState::Released || self.spec_state(button)
                == KeyState::Up),
    {
        self.state_map.is_up(&button.index())
    }

    /// Ends the frame: `Pressed` buttons become `Down` and `Released` buttons become `Up`.
    pub fn transition_states(&mut self)
        requires
            old(self).wf(),
        ensures
            final(self).wf(),
            final(self).spec_position() == old(self).spec_position(),
            forall|b: Button| #[trigger] final(self).spec_state(b) == next_state(old(self).spec_state(b)),
    {
        self.state_map.transition_states();
    }

    /// Records that `button` went down.
    pub fn handle_button_down(&mut self, button: Button)
        requires
            old(self).wf(),
        ensures
            final(self).wf(),
            final(self).spec_position() == old(self).spec_position(),
            forall|b: Button| #[trigger] final(self).spec_state(b)
                == if b == button { KeyState::Pressed } else { old(self).spec_state(b) },
    {
        self.state_map.handle_key_down(&button.index());
    }

    /// Records that `button` came up.
    pub fn handle_button_up(&mut self, button: Button)
        requires
            old(self).wf(),
        ensures
            final(self).wf(),
            final(self).spec_position() == old(self).spec_position(),
            forall|b: Button| #[trigger] final(self).spec_state(b)
                == if b == button { KeyState::Released } else { old(self).spec_state(b) },
    {
        self.state_map.handle_key_up(&button.index());
    }

    /// A button-down event with a browser button number: the button goes down, or, for a
    /// number that names no button, nothing changes and the error says so.
    pub fn button_down(&mut self, key_code: i16) -> (r: Result<(), Error>)
        requires
            old(self).wf(),
        ensures
            final(self).wf(),
            match button_of_number(key_code) {
                Some(button) => r is Ok && final(self).spec_position() == old(self).spec_position()
                    && forall|b: Button| #[trigger] final(self).spec_state(b)
                    == if b == button { KeyState::Pressed } else { old(self).spec_state(b) },
                None => r is Err && r->Err_0.spec_message() == unsupported_button_message(key_code)
                    && *final(self) == *old(self),
            },
    {
        match Button::new(key_code) {
            Ok(b) => {
                self.handle_button_down(b);
                Ok(())
            },
            Err(e) => Err(e),
        }
    }

    /// A button-up event with a browser button number: the button comes up, or, for a
    /// number that names no button, nothing changes and the error says so.
    pub fn button_up(&mut self, key_code: i16) -> (r: Result<(), Error>)
        requires
            old(self).wf(),
        ensures
            final(self).wf(),
            match button_of_number(key_code) {
                Some(button) => r is Ok && final(self).spec_position() == old(self).spec_position()
                    && forall|b: Button| #[trigger] final(self).spec_state(b)
                    == if b == button { KeyState::Released } else { old(self).spec_state(b) },
                None => r is Err && r->Err_0.spec_message() == unsupported_button_message(key_code)
                    && *final(self) == *old(self),
            },
    {
        match Button::new(key_code) {
            Ok(b) => {
                self.handle_button_up(b);
                Ok(())
            },
            Err(e) => Err(e),
        }
    }
}

impl Default for Mouse {
    fn default() -> (r: Self)
        ensures
            r.wf(),
            forall|b: Button| #[trigger] r.spec_state(b) == KeyState::Up,
            r.spec_position() == (Vertex2 { x: 0i32, y: 0i32 }),
    {
        Mouse::new()
    }
}

} // verus!
