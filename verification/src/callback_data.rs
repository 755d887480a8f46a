//! The state that callbacks of the immediate dispatchers work on: the
//! application's own state together with what the dispatchers keep track
//! of for it.

use crate::definitions::{ElementState, KeyCode, Modifiers, MouseButton, Quit};
use crate::events::MouseScrollDelta;
use crate::input::{filter_keyboard_keys, filter_mouse_buttons, GeneralInput, Input, InputView};
use std::time::Duration;
use std::time::Instant;
use vstd::prelude::*;

verus! {

/// What a `CallbackData` holds, as mathematics.
pub struct DataView<D> {
    pub user_data: D,
    pub inputs: InputView<GeneralInput>,
    pub modifiers: Modifiers,
    pub mouse_wheel: MouseScrollDelta,
    pub focused: bool,
    pub text: Seq<char>,
    pub quit: Quit,
    pub save_device_inputs: bool,
}

impl<D> DataView<D> {
    /// `input` goes down (at instant `at`) or up, as `state` says.
    pub open spec fn input(self, input: GeneralInput, state: ElementState, at: Instant) -> Self {
        DataView {
            inputs: match state {
                ElementState::Pressed => self.inputs.press(input, at),
                ElementState::Released => self.inputs.release(input),
            },
            ..self
        }
    }

    /// A step ends: the text, the turn of the mouse wheel and what was just
    /// pressed or released are forgotten.
    pub open spec fn step(self) -> Self {
        DataView {
            text: Seq::empty(),
            mouse_wheel: MouseScrollDelta::LineDelta(0, 0),
            inputs: self.inputs.clear(),
            ..self
        }
    }

    /// All of `inputs` are held while all of `modifiers` are down.
    pub open spec fn pressed_combination(self, modifiers: Modifiers, inputs: Seq<GeneralInput>) -> bool {
        self.inputs.all_pressed(inputs) && self.modifiers.includes(modifiers)
    }

    /// All of `inputs` were just pressed while all of `modifiers` are down.
    pub open spec fn just_pressed_combination(self, modifiers: Modifiers, inputs: Seq<GeneralInput>) -> bool {
        self.inputs.all_just_pressed(inputs) && self.modifiers.includes(modifiers)
    }

    /// All of `inputs` were just released while all of `modifiers` are down.
    pub open spec fn just_released_combination(self, modifiers: Modifiers, inputs: Seq<GeneralInput>) -> bool {
        self.inputs.all_just_released(inputs) && self.modifiers.includes(modifiers)
    }
}

/// The application's state together with the inputs that are held, the
/// modifier keys that are down, the text typed in this step, the last turn
/// of the mouse wheel, the focus of the window and the reasons to quit.
pub struct CallbackData<D> {
    pub user_data: D,
    pub inputs: Input<GeneralInput>,
    pub modifiers: Modifiers,
    /// The last turn of the mouse wheel in this step; no turn at all is a
    /// turn by zero lines.
    pub mouse_wheel: MouseScrollDelta,
    pub focused: bool,
    pub text: Vec<char>,
    pub quit: Quit,
    /// Whether inputs and text are taken from the events of devices instead
    /// of those of windows.
    pub save_device_inputs: bool,
}

impl<D> View for CallbackData<D> {
    type V = DataView<D>;

    open spec fn view(&self) -> DataView<D> {
        DataView {
            user_data: self.user_data,
            inputs: self.inputs@,
            modifiers: self.modifiers,
            mouse_wheel: self.mouse_wheel,
            focused: self.focused,
            text: self.text@,
            quit: self.quit,
            save_device_inputs: self.save_device_inputs,
        }
    }
}

impl<D> CallbackData<D> {
    /// Nothing held, no text, the window focused, no reason to quit; inputs
    /// are taken from the events of windows.
    pub fn new(user_data: D) -> (data: Self)
        ensures
            data@ == (DataView {
                user_data,
                inputs: InputView::empty(),
                modifiers: Modifiers { bits: 0 },
                mouse_wheel: MouseScrollDelta::LineDelta(0, 0),
                focused: true,
                text: Seq::empty(),
                quit: Quit { bits: 0 },
                save_device_inputs: false,
            }),
    {
        CallbackData {
            user_data,
            inputs: Input::new(),
            modifiers: Modifiers::empty(),
            mouse_wheel: MouseScrollDelta::LineDelta(0, 0),
            focused: true,
            text: Vec::new(),
            quit: Quit::empty(),
            save_device_inputs: false,
        }
    }

    /// Ends a step: forgets the text, the turn of the mouse wheel and what
    /// was just pressed or released.
    pub fn update(&mut self)
        ensures
            final(self)@ == old(self)@.step(),
    {
        self.text.clear();
        self.mouse_wheel = MouseScrollDelta::LineDelta(0, 0);
        self.inputs.clear();
    }

    /// Registers an input as pressed or released at the instant `at`.
    pub fn update_input_at(&mut self, input: GeneralInput, state: ElementState, at: Instant)
        ensures
            final(self)@ == old(self)@.input(input, state, at),
    {
        match state {
            ElementState::Pressed => {
                self.inputs.press_at(input, at);
            },
            ElementState::Released => {
                self.inputs.release(input);
            },
        }
    }

    /// Registers a mouse button as pressed or released, now.
    pub fn update_buttons(&mut self, value: MouseButton, state: ElementState)
        ensures
            exists|at: Instant| final(self)@ == old(self)@.input(GeneralInput::MouseButton(value), state, at),
    {
        match state {
            ElementState::Pressed => {
                self.inputs.press(GeneralInput::MouseButton(value));
                proof {
                    let at = choose|at: Instant|
                        self.inputs@ == old(self).inputs@.press(GeneralInput::MouseButton(value), at);
                    assert(self@ == old(self)@.input(GeneralInput::MouseButton(value), state, at));
                }
            },
            ElementState::Released => {
                self.inputs.release(GeneralInput::MouseButton(value));
                assert(self@ == old(self)@.input(GeneralInput::MouseButton(value), state, arbitrary()));
            },
        }
    }

    /// Registers a key as pressed or released, now.
    pub fn update_keys(&mut self, value: KeyCode, state: ElementState)
        ensures
            exists|at: Instant| final(self)@ == old(self)@.input(GeneralInput::KeyCode(value), state, at),
    {
        match state {
            ElementState::Pressed => {
                self.inputs.press(GeneralInput::KeyCode(value));
                proof {
                    let at = choose|at: Instant|
                        self.inputs@ == old(self).inputs@.press(GeneralInput::KeyCode(value), at);
                    assert(self@ == old(self)@.input(GeneralInput::KeyCode(value), state, at));
                }
            },
            ElementState::Released => {
                self.inputs.release(GeneralInput::KeyCode(value));
                assert(self@ == old(self)@.input(GeneralInput::KeyCode(value), state, arbitrary()));
            },
        }
    }

    /// The inputs that were just pressed, each once, in no particular order.
    pub fn just_pressed_iter(&self) -> (fresh: Vec<GeneralInput>)
        ensures
            fresh@.no_duplicates(),
            fresh@.to_set() == self@.inputs.just_pressed,
    {
        self.inputs.just_pressed_iter()
    }

    /// The inputs that were just released, each once, in no particular
    /// order.
    pub fn just_released_iter(&self) -> (fresh: Vec<GeneralInput>)
        ensures
            fresh@.no_duplicates(),
            fresh@.to_set() == self@.inputs.just_released,
    {
        self.inputs.just_released_iter()
    }

    /// The inputs that are held, each once, in no particular order.
    pub fn pressed_iter(&self) -> (held: Vec<GeneralInput>)
        ensures
            held@.no_duplicates(),
            held@.to_set() == self@.inputs.pressed.dom(),
    {
        self.inputs.pressed_iter()
    }

    /// The keys among the inputs that were just pressed.
    pub fn key_just_pressed_iter(&self) -> (keys: Vec<KeyCode>)
        ensures
            exists|fresh: Seq<GeneralInput>|
                fresh.no_duplicates() && fresh.to_set() == self@.inputs.just_pressed && keys@
                    == crate::input::keyboard_keys_of(fresh),
    {
        let fresh = self.inputs.just_pressed_iter();
        filter_keyboard_keys(fresh.as_slice())
    }

    /// The mouse buttons among the inputs that were just pressed.
    pub fn button_just_pressed_iter(&self) -> (buttons: Vec<MouseButton>)
        ensures
            exists|fresh: Seq<GeneralInput>|
                fresh.no_duplicates() && fresh.to_set() == self@.inputs.just_pressed && buttons@
                    == crate::input::mouse_buttons_of(fresh),
    {
        let fresh = self.inputs.just_pressed_iter();
        filter_mouse_buttons(fresh.as_slice())
    }

    /// The keys among the inputs that were just released.
    pub fn key_just_released_iter(&self) -> (keys: Vec<KeyCode>)
        ensures
            exists|fresh: Seq<GeneralInput>|
                fresh.no_duplicates() && fresh.to_set() == self@.inputs.just_released && keys@
                    == crate::input::keyboard_keys_of(fresh),
    {
        let fresh = self.inputs.just_released_iter();
        filter_keyboard_keys(fresh.as_slice())
    }

    /// The mouse buttons among the inputs that were just released.
    pub fn button_just_released_iter(&self) -> (buttons: Vec<MouseButton>)
        ensures
            exists|fresh: Seq<GeneralInput>|
                fresh.no_duplicates() && fresh.to_set() == self@.inputs.just_released && buttons@
                    == crate::input::mouse_buttons_of(fresh),
    {
        let fresh = self.inputs.just_released_iter();
        filter_mouse_buttons(fresh.as_slice())
    }

    /// The keys among the inputs that are held.
    pub fn key_pressed_iter(&self) -> (keys: Vec<KeyCode>)
        ensures
            exists|held: Seq<GeneralInput>|
                held.no_duplicates() && held.to_set() == self@.inputs.pressed.dom() && keys@
                    == crate::input::keyboard_keys_of(held),
    {
        let held = self.inputs.pressed_iter();
        filter_keyboard_keys(held.as_slice())
    }

    /// The mouse buttons among the inputs that are held.
    pub fn button_pressed_iter(&self) -> (buttons: Vec<MouseButton>)
        ensures
            exists|held: Seq<GeneralInput>|
                held.no_duplicates() && held.to_set() == self@.inputs.pressed.dom() && buttons@
                    == crate::input::mouse_buttons_of(held),
    {
        let held = self.inputs.pressed_iter();
        filter_mouse_buttons(held.as_slice())
    }

    /// How long `value` has been held when the clock reads `now`, if it is
    /// held: the time from the instant at which it went down to `now`.
    pub fn pressed_for_at(&self, value: GeneralInput, now: Instant) -> (held_for: Option<Duration>)
        ensures
            held_for == self@.inputs.pressed_for(value, now),
    {
        self.inputs.pressed_for_at(value, now)
    }

    /// How long `value` has been held, if it is held: the time from the
    /// instant at which it went down to the reading of the clock that the
    /// call takes.
    pub fn pressed_for(&self, value: GeneralInput) -> (held_for: Option<Duration>)
        ensures
            exists|now: Instant| held_for == self@.inputs.pressed_for(value, now),
            held_for is Some == self@.inputs.pressed.dom().contains(value),
    {
        self.inputs.pressed_for(value)
    }

    /// Whether `value` is held.
    pub fn pressed(&self, value: GeneralInput) -> (held: bool)
        ensures
            held == self@.inputs.pressed.dom().contains(value),
    {
        self.inputs.pressed(value)
    }

    /// Whether some input in `values` is held.
    pub fn pressed_any(&self, values: &[GeneralInput]) -> (any: bool)
        ensures
            any == self@.inputs.any_pressed(values@),
    {
        self.inputs.pressed_any(values)
    }

    /// Whether every input in `values` is held.
    pub fn pressed_all(&self, values: &[GeneralInput]) -> (all: bool)
        ensures
            all == self@.inputs.all_pressed(values@),
    {
        self.inputs.pressed_all(values)
    }

    /// Whether `value` went down in this step and is still held.
    pub fn just_pressed(&self, value: GeneralInput) -> (fresh: bool)
        ensures
            fresh == self@.inputs.just_pressed.contains(value),
    {
        self.inputs.just_pressed(value)
    }

    /// Whether `value` went up in this step.
    pub fn just_released(&self, value: GeneralInput) -> (fresh: bool)
        ensures
            fresh == self@.inputs.just_released.contains(value),
    {
        self.inputs.just_released(value)
    }

    /// Whether some input in `values` was just pressed.
    pub fn just_pressed_any(&self, values: &[GeneralInput]) -> (any: bool)
        ensures
            any == self@.inputs.any_just_pressed(values@),
    {
        self.inputs.just_pressed_any(values)
    }

    /// Whether every input in `values` was just pressed.
    pub fn just_pressed_all(&self, values: &[GeneralInput]) -> (all: bool)
        ensures
            all == self@.inputs.all_just_pressed(values@),
    {
        self.inputs.just_pressed_all(values)
    }

    /// Whether some input in `values` was just released.
    pub fn just_released_any(&self, values: &[GeneralInput]) -> (any: bool)
        ensures
            any == self@.inputs.any_just_released(values@),
    {
        self.inputs.just_released_any(values)
    }

    /// Whether every input in `values` was just released.
    pub fn just_released_all(&self, values: &[GeneralInput]) -> (all: bool)
        ensures
            all == self@.inputs.all_just_released(values@),
    {
        self.inputs.just_released_all(values)
    }

    /// Whether all of `values` were just pressed while all of `modifiers`
    /// are down.
    pub fn just_pressed_combination(&self, modifiers: Modifiers, values: &[GeneralInput]) -> (holds: bool)
        ensures
            holds == self@.just_pressed_combination(modifiers, values@),
    {
        self.inputs.just_pressed_all(values) && self.modifiers.contains(modifiers)
    }

    /// Whether all of `values` are held while all of `modifiers` are down.
    pub fn pressed_combination(&self, modifiers: Modifiers, values: &[GeneralInput]) -> (holds: bool)
        ensures
            holds == self@.pressed_combination(modifiers, values@),
    {
        self.inputs.pressed_all(values) && self.modifiers.contains(modifiers)
    }

    /// Whether all of `values` were just released while all of `modifiers`
    /// are down.
    pub fn just_released_combination(&self, modifiers: Modifiers, values: &[GeneralInput]) -> (holds: bool)
        ensures
            holds == self@.just_released_combination(modifiers, values@),
    {
        self.inputs.just_released_all(values) && self.modifiers.contains(modifiers)
    }

    /// Whether the window is focused.
    pub fn focused(&self) -> (focused: bool)
        ensures
            focused == self@.focused,
    {
        self.focused
    }

    /// Whether an alt key is down.
    pub fn pressed_alt(&self) -> (down: bool)
        ensures
            down == self@.modifiers.includes(Modifiers { bits: Modifiers::ALT }),
    {
        self.modifiers.alt()
    }

    /// Whether a control key is down.
    pub fn pressed_ctrl(&self) -> (down: bool)
        ensures
            down == self@.modifiers.includes(Modifiers { bits: Modifiers::CTRL }),
    {
        self.modifiers.ctrl()
    }

    /// Whether the logo key is down.
    pub fn pressed_logo(&self) -> (down: bool)
        ensures
            down == self@.modifiers.includes(Modifiers { bits: Modifiers::LOGO }),
    {
        self.modifiers.logo()
    }

    /// Whether a shift key is down.
    pub fn pressed_shift(&self) -> (down: bool)
        ensures
            down == self@.modifiers.includes(Modifiers { bits: Modifiers::SHIFT }),
    {
        self.modifiers.shift()
    }

    /// Notes that the application itself wants to quit.
    pub fn quit(&mut self)
        ensures
            final(self)@ == (DataView {
                quit: Quit { bits: old(self)@.quit.bits | Quit::USER_REQUESTED },
                ..old(self)@
            }),
    {
        self.quit.insert(Quit { bits: Quit::USER_REQUESTED });
    }

    /// Whether one of the reasons in `request_type` to quit has been noted.
    pub fn quit_requested(&self, request_type: Quit) -> (requested: bool)
        ensures
            requested == self@.quit.overlaps(request_type),
    {
        self.quit.intersects(request_type)
    }

    /// The characters typed in this step, in the order in which they came.
    pub fn text(&self) -> (typed: Vec<char>)
        ensures
            typed@ == self@.text,
    {
        self.text.clone()
    }
}

} // verus!
