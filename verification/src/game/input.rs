//! The state of the movement keys.

use vstd::prelude::*;

verus! {

/// A key event as the game sees it: a fixed view-turning key, a key bound to a
/// movement action, or anything else.
#[derive(Debug, Clone, Copy, PartialEq, Eq, Structural)]
pub enum Key {
    TurnLeft,
    TurnRight,
    LookUp,
    LookDown,
    Forward,
    Back,
    Left,
    Right,
    Jump,
    Sneak,
    Sprint,
    Unbound,
}

/// Which movement keys are down. Sprint is a toggle.
#[derive(Debug, Clone, Copy, PartialEq, Eq, Structural)]
pub struct InputState {
    pub forward: bool,
    pub backward: bool,
    pub left: bool,
    pub right: bool,
    pub jump: bool,
    pub sneak: bool,
    pub sprint: bool,
    pub turn_left: bool,
    pub turn_right: bool,
    pub look_up: bool,
    pub look_down: bool,
}

impl InputState {
    /// No key down.
    pub open spec fn released() -> InputState {
        InputState {
            forward: false,
            backward: false,
            left: false,
            right: false,
            jump: false,
            sneak: false,
            sprint: false,
            turn_left: false,
            turn_right: false,
            look_up: false,
            look_down: false,
        }
    }

    /// The keys after an event: a held key follows it, and each press of the
    /// sprint key flips the sprint intent.
    pub open spec fn after(self, key: Key, pressed: bool) -> InputState {
        match key {
            Key::TurnLeft => InputState { turn_left: pressed, ..self },
            Key::TurnRight => InputState { turn_right: pressed, ..self },
            Key::LookUp => InputState { look_up: pressed, ..self },
            Key::LookDown => InputState { look_down: pressed, ..self },
            Key::Forward => InputState { forward: pressed, ..self },
            Key::Back => InputState { backward: pressed, ..self },
            Key::Left => InputState { left: pressed, ..self },
            Key::Right => InputState { right: pressed, ..self },
            Key::Jump => InputState { jump: pressed, ..self },
            Key::Sneak => InputState { sneak: pressed, ..self },
            Key::Sprint => if pressed {
                InputState { sprint: !self.sprint, ..self }
            } else {
                self
            },
            Key::Unbound => self,
        }
    }

    /// Forward movement: 1 forward, -1 back.
    pub open spec fn spec_forward_axis(self) -> int {
        (if self.forward {
            1
        } else {
            0int
        }) - (if self.backward {
            1
        } else {
            0int
        })
    }

    /// Sideways movement: 1 left, -1 right.
    pub open spec fn spec_strafe_axis(self) -> int {
        (if self.left {
            1
        } else {
            0int
        }) - (if self.right {
            1
        } else {
            0int
        })
    }

    /// Follow a key event.
    pub fn handle_key(&mut self, key: Key, pressed: bool)
        ensures
            *final(self) == old(self).after(key, pressed),
    {
        let keys = *self;
        *self = match key {
            Key::TurnLeft => InputState { turn_left: pressed, ..keys },
            Key::TurnRight => InputState { turn_right: pressed, ..keys },
            Key::LookUp => InputState { look_up: pressed, ..keys },
            Key::LookDown => InputState { look_down: pressed, ..keys },
            Key::Forward => InputState { forward: pressed, ..keys },
            Key::Back => InputState { backward: pressed, ..keys },
            Key::Left => InputState { left: pressed, ..keys },
            Key::Right => InputState { right: pressed, ..keys },
            Key::Jump => InputState { jump: pressed, ..keys },
            Key::Sneak => InputState { sneak: pressed, ..keys },
            Key::Sprint => if pressed {
                InputState { sprint: !keys.sprint, ..keys }
            } else {
                keys
            },
            Key::Unbound => keys,
        };
    }

    /// The forward and sideways movement the keys ask for, each -1, 0 or 1.
    pub fn player_input(&self) -> (axes: (i8, i8))
        ensures
            axes.0 == self.spec_forward_axis(),
            axes.1 == self.spec_strafe_axis(),
    {
        let forward: i8 = if self.forward == self.backward {
            0
        } else if self.forward {
            1
        } else {
            -1
        };
        let strafe: i8 = if self.left == self.right {
            0
        } else if self.left {
            1
        } else {
            -1
        };
        (forward, strafe)
    }

    /// Let go of every key, so that none stays down behind a menu.
    pub fn release_all(&mut self)
        ensures
            *final(self) == InputState::released(),
    {
        *self = InputState::default();
    }
}

impl Default for InputState {
    fn default() -> (input: Self)
        ensures
            input == InputState::released(),
    {
        InputState {
            forward: false,
            backward: false,
            left: false,
            right: false,
            jump: false,
            sneak: false,
            sprint: false,
            turn_left: false,
            turn_right: false,
            look_up: false,
            look_down: false,
        }
    }
}

/// Pressing and releasing a held key leaves the other keys alone and that one up.
pub proof fn law_press_and_release(input: InputState, key: Key)
    requires
        key != Key::Sprint,
    ensures
        input.after(key, true).after(key, false) == input.after(key, false),
{
}

/// Pressing the sprint key twice restores the sprint intent, however often it is
/// released in between.
pub proof fn law_sprint_toggles(input: InputState)
    ensures
        input.after(Key::Sprint, true).after(Key::Sprint, false).after(Key::Sprint, true) == input,
{
}

} // verus!
