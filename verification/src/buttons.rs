//! The two button vocabularies and the per-button key state.

use vstd::prelude::*;

verus! {

/// A button of the host's abstract joypad.
#[derive(Clone, Copy, Debug, PartialEq, Eq, Structural)]
pub enum JoypadButton {
    B,
    Y,
    Select,
    Start,
    Up,
    Down,
    Left,
    Right,
    A,
    X,
    L1,
    R1,
    L2,
    R2,
    L3,
    R3,
}

/// A button of one of the engine's controllers.
#[derive(Clone, Copy, Debug, PartialEq, Eq, Structural)]
pub enum ControllerButton {
    Start,
    Up,
    Down,
    Left,
    Right,
    A,
    B,
    C,
}

/// One input signal of the engine: a button on one of its two controllers.
#[derive(Clone, Copy, Debug, PartialEq, Eq, Structural)]
pub enum InputCommand {
    Controller1(ControllerButton),
    Controller2(ControllerButton),
}

/// Number of distinct input commands.
pub const COMMAND_COUNT: usize = 16;

impl ControllerButton {
    /// Position of the button among the eight of a controller.
    pub open spec fn spec_index(self) -> int {
        match self {
            ControllerButton::Start => 0,
            ControllerButton::Up => 1,
            ControllerButton::Down => 2,
            ControllerButton::Left => 3,
            ControllerButton::Right => 4,
            ControllerButton::A => 5,
            ControllerButton::B => 6,
            ControllerButton::C => 7,
        }
    }

    /// The host button that drives this controller button. The engine's C
    /// button is driven by the host's X; every other button keeps its name.
    pub open spec fn host_button(self) -> JoypadButton {
        match self {
            ControllerButton::Start => JoypadButton::Start,
            ControllerButton::Up => JoypadButton::Up,
            ControllerButton::Down => JoypadButton::Down,
            ControllerButton::Left => JoypadButton::Left,
            ControllerButton::Right => JoypadButton::Right,
            ControllerButton::A => JoypadButton::A,
            ControllerButton::B => JoypadButton::B,
            ControllerButton::C => JoypadButton::X,
        }
    }

    /// Position of the button among the eight of a controller.
    pub fn index(self) -> (i: usize)
        ensures
            i == self.spec_index(),
            i < 8,
    {
        match self {
            ControllerButton::Start => 0,
            ControllerButton::Up => 1,
            ControllerButton::Down => 2,
            ControllerButton::Left => 3,
            ControllerButton::Right => 4,
            ControllerButton::A => 5,
            ControllerButton::B => 6,
            ControllerButton::C => 7,
        }
    }

}

impl InputCommand {
    /// The button the command stands for, whichever controller it is on.
    pub open spec fn button(self) -> ControllerButton {
        match self {
            InputCommand::Controller1(button) => button,
            InputCommand::Controller2(button) => button,
        }
    }

    /// The host port that drives the command's controller.
    pub open spec fn port(self) -> u32 {
        match self {
            InputCommand::Controller1(_) => 0,
            InputCommand::Controller2(_) => 1,
        }
    }

    /// Position of the command among all sixteen: controller 1 first.
    pub open spec fn spec_slot(self) -> int {
        8 * self.port() + self.button().spec_index()
    }

    /// Position of the command among all sixteen.
    pub fn slot(self) -> (slot: usize)
        ensures
            slot == self.spec_slot(),
            slot < COMMAND_COUNT,
    {
        match self {
            InputCommand::Controller1(button) => button.index(),
            InputCommand::Controller2(button) => 8 + button.index(),
        }
    }
}

/// Distinct commands occupy distinct slots.
pub proof fn lemma_slot_injective(first: InputCommand, second: InputCommand)
    ensures
        0 <= first.spec_slot() < COMMAND_COUNT,
        first.spec_slot() == second.spec_slot() <==> first == second,
{
}

/// Whether a button is held down now, and whether it was when last observed.
#[derive(Clone, Copy, Debug, PartialEq, Eq, Structural)]
pub struct KeyState {
    pub pressed: bool,
    pub was_pressed: bool,
}

impl KeyState {
    /// The state of a button seen for the first time.
    pub open spec fn spec_new(pressed: bool) -> KeyState {
        KeyState { pressed, was_pressed: false }
    }

    /// The state that follows `self` when the button is observed again.
    pub open spec fn spec_update_state(&self, pressed: bool) -> KeyState {
        KeyState { pressed, was_pressed: self.pressed }
    }

    #[verifier::when_used_as_spec(spec_new)]
    pub fn new(pressed: bool) -> (state: KeyState)
        ensures
            state == KeyState::spec_new(pressed),
    {
        KeyState { pressed, was_pressed: false }
    }

    #[verifier::when_used_as_spec(spec_update_state)]
    pub fn update_state(&self, pressed: bool) -> (state: KeyState)
        ensures
            state == self.spec_update_state(pressed),
    {
        KeyState { pressed, was_pressed: self.pressed }
    }

    pub fn is_pressed(&self) -> (pressed: bool)
        ensures
            pressed == self.pressed,
    {
        self.pressed
    }
}

/// The state a command has after one observation: a fresh state if it had
/// none, else its previous state brought up to date.
pub open spec fn next_state(previous: Option<KeyState>, pressed: bool) -> KeyState {
    match previous {
        Some(state) => state.spec_update_state(pressed),
        None => KeyState::spec_new(pressed),
    }
}

} // verus!
