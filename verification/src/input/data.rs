//! The input tracker of a window or device: held inputs of every kind,
//! together with the modifier keys that are down.

use crate::default_ahashmap::{Blank, DefaultAHashMap, Twin};
use crate::definitions::{ElementState, GenericInput, KeyCode, Modifiers, MouseButton};
use crate::dispatch::{effects, effects_compose, effects_extend, Callback};
use crate::input::callbacks::{fired, Bindings, InputCallbacks};
use crate::input::{picked, picked_membership, Input, InputView};
use std::time::Duration;
use std::time::Instant;
use vstd::prelude::*;

verus! {

/// The three things that a combination can be asked about.
#[derive(Clone, Copy, Debug, PartialEq, Eq, Hash, Structural)]
pub enum Trigger {
    /// The inputs are held.
    Pressed,
    /// The inputs went down in this step.
    JustPressed,
    /// The inputs went up in this step.
    JustReleased,
}

/// What an `InputData` knows, as mathematics.
pub struct InputDataView {
    /// Held, just pressed and just released inputs.
    pub inputs: InputView<GenericInput>,
    /// The modifier keys that are down.
    pub modifiers: Modifiers,
}

impl InputDataView {
    /// Nothing held, no modifier down.
    pub open spec fn empty() -> Self {
        InputDataView { inputs: InputView::empty(), modifiers: Modifiers { bits: 0 } }
    }

    /// `input` goes down at instant `at`.
    pub open spec fn press(self, input: GenericInput, at: Instant) -> Self {
        InputDataView { inputs: self.inputs.press(input, at), modifiers: self.modifiers }
    }

    /// `input` goes up.
    pub open spec fn release(self, input: GenericInput) -> Self {
        InputDataView { inputs: self.inputs.release(input), modifiers: self.modifiers }
    }

    /// `input` goes down (at instant `at`) or up, as `state` says.
    pub open spec fn update(self, input: GenericInput, state: ElementState, at: Instant) -> Self {
        match state {
            ElementState::Pressed => self.press(input, at),
            ElementState::Released => self.release(input),
        }
    }

    /// The modifier keys that are down are replaced as a whole.
    pub open spec fn update_modifiers(self, modifiers: Modifiers) -> Self {
        InputDataView { inputs: self.inputs, modifiers }
    }

    /// A step ends: what is held and the modifiers stay, the rest is
    /// forgotten.
    pub open spec fn clear(self) -> Self {
        InputDataView { inputs: self.inputs.clear(), modifiers: self.modifiers }
    }

    /// Everything but the modifiers is forgotten.
    pub open spec fn reset(self) -> Self {
        InputDataView { inputs: InputView::empty(), modifiers: self.modifiers }
    }

    /// All of `inputs` are held while all of `modifiers` are down.
    pub open spec fn pressed_combination(self, inputs: Seq<GenericInput>, modifiers: Modifiers) -> bool {
        self.inputs.all_pressed(inputs) && self.modifiers.includes(modifiers)
    }

    /// All of `inputs` were just pressed while all of `modifiers` are down.
    pub open spec fn just_pressed_combination(self, inputs: Seq<GenericInput>, modifiers: Modifiers) -> bool {
        self.inputs.all_just_pressed(inputs) && self.modifiers.includes(modifiers)
    }

    /// All of `inputs` were just released while all of `modifiers` are down.
    pub open spec fn just_released_combination(self, inputs: Seq<GenericInput>, modifiers: Modifiers) -> bool {
        self.inputs.all_just_released(inputs) && self.modifiers.includes(modifiers)
    }

    /// Whether the combination holds in the sense of `trigger`.
    pub open spec fn holds(self, trigger: Trigger, inputs: Seq<GenericInput>, modifiers: Modifiers) -> bool {
        match trigger {
            Trigger::Pressed => self.pressed_combination(inputs, modifiers),
            Trigger::JustPressed => self.just_pressed_combination(inputs, modifiers),
            Trigger::JustReleased => self.just_released_combination(inputs, modifiers),
        }
    }

    /// The test that `trigger` puts to a combination.
    pub open spec fn test(self, trigger: Trigger) -> spec_fn(Seq<GenericInput>, Modifiers) -> bool {
        |inputs: Seq<GenericInput>, modifiers: Modifiers| self.holds(trigger, inputs, modifiers)
    }

    /// The callbacks that a step calls, in the order in which it calls them:
    /// those bound to combinations that are held, then those bound to
    /// combinations that were just pressed, then those bound to
    /// combinations that were just released; within each group in the order
    /// of the bindings.
    pub open spec fn plan<C>(self, callbacks: InputCallbacks<C>) -> Seq<C> {
        fired(callbacks.pressed@, self.test(Trigger::Pressed)) + fired(
            callbacks.just_pressed@,
            self.test(Trigger::JustPressed),
        ) + fired(callbacks.just_released@, self.test(Trigger::JustReleased))
    }

    /// A combination holds only if its inputs are as asked and the
    /// modifiers that are down include the ones asked for; with no modifier
    /// asked for, the inputs alone decide.
    pub proof fn combination_needs_inputs_and_modifiers(self, inputs: Seq<GenericInput>, modifiers: Modifiers)
        ensures
            self.pressed_combination(inputs, modifiers) ==> self.inputs.all_pressed(inputs)
                && self.modifiers.includes(modifiers),
            !self.inputs.all_pressed(inputs) ==> !self.pressed_combination(inputs, modifiers),
            !self.modifiers.includes(modifiers) ==> !self.pressed_combination(inputs, modifiers)
                && !self.just_pressed_combination(inputs, modifiers)
                && !self.just_released_combination(inputs, modifiers),
            self.pressed_combination(inputs, Modifiers { bits: 0 }) == self.inputs.all_pressed(inputs),
            self.just_pressed_combination(inputs, Modifiers { bits: 0 })
                == self.inputs.all_just_pressed(inputs),
            self.just_released_combination(inputs, Modifiers { bits: 0 })
                == self.inputs.all_just_released(inputs),
    {
        self.modifiers.includes_empty_and_self();
    }
}

/// Tracks the inputs of one window or device.
pub struct InputData {
    inputs: Input<GenericInput>,
    modifiers: Modifiers,
}

impl View for InputData {
    type V = InputDataView;

    closed spec fn view(&self) -> InputDataView {
        InputDataView { inputs: self.inputs@, modifiers: self.modifiers }
    }
}

impl Default for InputData {
    fn default() -> (data: Self)
        ensures
            data@ == InputDataView::empty(),
    {
        InputData { inputs: Input::new(), modifiers: Modifiers::empty() }
    }
}

impl InputData {
    /// Whether `input` went down since the last `clear` and is still held.
    pub fn just_pressed(&self, input: GenericInput) -> (fresh: bool)
        ensures
            fresh == self@.inputs.just_pressed.contains(input),
    {
        self.inputs.just_pressed(input)
    }

    /// Whether some input in `inputs` was just pressed.
    pub fn just_pressed_any(&self, inputs: &[GenericInput]) -> (any: bool)
        ensures
            any == self@.inputs.any_just_pressed(inputs@),
    {
        self.inputs.just_pressed_any(inputs)
    }

    /// Whether every input in `inputs` was just pressed.
    pub fn just_pressed_all(&self, inputs: &[GenericInput]) -> (all: bool)
        ensures
            all == self@.inputs.all_just_pressed(inputs@),
    {
        self.inputs.just_pressed_all(inputs)
    }

    /// The inputs that were just pressed, each once, in no particular order.
    pub fn just_pressed_iter(&self) -> (fresh: Vec<GenericInput>)
        ensures
            fresh@.no_duplicates(),
            fresh@.to_set() == self@.inputs.just_pressed,
    {
        self.inputs.just_pressed_iter()
    }

    /// Whether `input` went up since the last `clear`.
    pub fn just_released(&self, input: GenericInput) -> (fresh: bool)
        ensures
            fresh == self@.inputs.just_released.contains(input),
    {
        self.inputs.just_released(input)
    }

    /// Whether some input in `inputs` was just released.
    pub fn just_released_any(&self, inputs: &[GenericInput]) -> (any: bool)
        ensures
            any == self@.inputs.any_just_released(inputs@),
    {
        self.inputs.just_released_any(inputs)
    }

    /// Whether every input in `inputs` was just released.
    pub fn just_released_all(&self, inputs: &[GenericInput]) -> (all: bool)
        ensures
            all == self@.inputs.all_just_released(inputs@),
    {
        self.inputs.just_released_all(inputs)
    }

    /// The inputs that were just released, each once, in no particular
    /// order.
    pub fn just_released_iter(&self) -> (fresh: Vec<GenericInput>)
        ensures
            fresh@.no_duplicates(),
            fresh@.to_set() == self@.inputs.just_released,
    {
        self.inputs.just_released_iter()
    }

    /// Registers `input` as pressed at the instant `at`. Pressing an input
    /// that is already held changes nothing.
    pub fn press_at(&mut self, input: GenericInput, at: Instant)
        ensures
            final(self)@ == old(self)@.press(input, at),
    {
        self.inputs.press_at(input, at);
    }

    /// Registers `input` as pressed now. Pressing an input that is already
    /// held changes nothing; in particular it keeps its instant.
    pub fn press(&mut self, input: GenericInput)
        ensures
            exists|at: Instant| final(self)@ == old(self)@.press(input, at),
            final(self)@.inputs.pressed.dom().contains(input),
            old(self)@.inputs.pressed.dom().contains(input) ==> final(self)@ == old(self)@,
            !old(self)@.inputs.pressed.dom().contains(input) ==> final(self)@.inputs.just_pressed.contains(
                input,
            ) && !final(self)@.inputs.just_released.contains(input),
            old(self)@.inputs.consistent() ==> final(self)@.inputs.consistent(),
    {
        let ghost before = self.inputs@;
        self.inputs.press(input);
        proof {
            let at = choose|at: Instant| self.inputs@ == before.press(input, at);
            assert(self@ == old(self)@.press(input, at));
        }
    }

    /// Whether `input` is held.
    pub fn pressed(&self, input: GenericInput) -> (held: bool)
        ensures
            held == self@.inputs.pressed.dom().contains(input),
    {
        self.inputs.pressed(input)
    }

    /// Whether every input in `inputs` is held.
    pub fn pressed_all(&self, inputs: &[GenericInput]) -> (all: bool)
        ensures
            all == self@.inputs.all_pressed(inputs@),
    {
        self.inputs.pressed_all(inputs)
    }

    /// Whether some input in `inputs` is held.
    pub fn pressed_any(&self, inputs: &[GenericInput]) -> (any: bool)
        ensures
            any == self@.inputs.any_pressed(inputs@),
    {
        self.inputs.pressed_any(inputs)
    }

    /// The instant at which `input` went down, if it is held.
    pub fn pressed_since(&self, input: GenericInput) -> (since: Option<Instant>)
        ensures
            since == if self@.inputs.pressed.dom().contains(input) {
                Some(self@.inputs.pressed[input])
            } else {
                None::<Instant>
            },
    {
        self.inputs.pressed_since(input)
    }

    /// How long `input` has been held when the clock reads `now`, if it is
    /// held: the time from the instant at which it went down to `now`.
    pub fn pressed_for_at(&self, input: GenericInput, now: Instant) -> (held_for: Option<Duration>)
        ensures
            held_for == self@.inputs.pressed_for(input, now),
    {
        self.inputs.pressed_for_at(input, now)
    }

    /// How long `input` has been held, if it is held: the time from the
    /// instant at which it went down to the reading of the clock that the
    /// call takes.
    pub fn pressed_for(&self, input: GenericInput) -> (held_for: Option<Duration>)
        ensures
            exists|now: Instant| held_for == self@.inputs.pressed_for(input, now),
            held_for is Some == self@.inputs.pressed.dom().contains(input),
    {
        self.inputs.pressed_for(input)
    }

    /// The inputs that are held, each once, in no particular order.
    pub fn pressed_iter(&self) -> (held: Vec<GenericInput>)
        ensures
            held@.no_duplicates(),
            held@.to_set() == self@.inputs.pressed.dom(),
    {
        self.inputs.pressed_iter()
    }

    /// The modifier keys that are down.
    pub fn modifiers(&self) -> (modifiers: Modifiers)
        ensures
            modifiers == self@.modifiers,
    {
        self.modifiers
    }

    /// Replaces the modifier keys that are down, as a whole.
    pub fn update_modifiers(&mut self, modifiers: Modifiers)
        ensures
            final(self)@ == old(self)@.update_modifiers(modifiers),
    {
        self.modifiers = modifiers;
    }

    /// Whether all of `inputs` were just pressed while all of `modifiers`
    /// are down.
    pub fn just_pressed_combination(&self, inputs: &[GenericInput], modifiers: Modifiers) -> (holds: bool)
        ensures
            holds == self@.just_pressed_combination(inputs@, modifiers),
    {
        self.inputs.just_pressed_all(inputs) && self.modifiers.contains(modifiers)
    }

    /// Whether all of `inputs` are held while all of `modifiers` are down.
    pub fn pressed_combination(&self, inputs: &[GenericInput], modifiers: Modifiers) -> (holds: bool)
        ensures
            holds == self@.pressed_combination(inputs@, modifiers),
    {
        self.inputs.pressed_all(inputs) && self.modifiers.contains(modifiers)
    }

    /// Whether all of `inputs` were just released while all of `modifiers`
    /// are down.
    pub fn just_released_combination(&self, inputs: &[GenericInput], modifiers: Modifiers) -> (holds: bool)
        ensures
            holds == self@.just_released_combination(inputs@, modifiers),
    {
        self.inputs.just_released_all(inputs) && self.modifiers.contains(modifiers)
    }

    /// Whether an alt key is down.
    pub fn pressed_alt(&self) -> (down: bool)
        ensures
            down == self@.modifiers.includes(Modifiers { bits: Modifiers::ALT }),
    {
        self.modifiers.alt()
    }

    /// Whether a control key is down.
    pub fn pressed_ctrl(&self) -> (down: bool)
        ensures
            down == self@.modifiers.includes(Modifiers { bits: Modifiers::CTRL }),
    {
        self.modifiers.ctrl()
    }

    /// Whether the logo key is down.
    pub fn pressed_logo(&self) -> (down: bool)
        ensures
            down == self@.modifiers.includes(Modifiers { bits: Modifiers::LOGO }),
    {
        self.modifiers.logo()
    }

    /// Whether a shift key is down.
    pub fn pressed_shift(&self) -> (down: bool)
        ensures
            down == self@.modifiers.includes(Modifiers { bits: Modifiers::SHIFT }),
    {
        self.modifiers.shift()
    }

    /// Registers `input` as released.
    pub fn release(&mut self, input: GenericInput)
        ensures
            final(self)@ == old(self)@.release(input),
    {
        self.inputs.release(input);
    }

    /// Forgets what was just pressed and just released. What is held and
    /// the modifiers stay.
    pub fn clear(&mut self)
        ensures
            final(self)@ == old(self)@.clear(),
    {
        self.inputs.clear();
    }

    /// Forgets all inputs. The modifiers stay.
    pub fn reset(&mut self)
        ensures
            final(self)@ == old(self)@.reset(),
    {
        self.inputs.reset();
    }

    /// Registers `input` as pressed or released, as `state` says, at the
    /// instant `at`.
    pub fn update_at(&mut self, input: GenericInput, state: ElementState, at: Instant)
        ensures
            final(self)@ == old(self)@.update(input, state, at),
    {
        match state {
            ElementState::Pressed => {
                self.press_at(input, at);
            },
            ElementState::Released => {
                self.release(input);
            },
        }
    }

    /// Registers `input` as pressed or released now, as `state` says.
    pub fn update(&mut self, input: GenericInput, state: ElementState)
        ensures
            exists|at: Instant| final(self)@ == old(self)@.update(input, state, at),
    {
        match state {
            ElementState::Pressed => {
                self.press(input);
                proof {
                    let at = choose|at: Instant| self@ == old(self)@.press(input, at);
                    assert(self@ == old(self)@.update(input, state, at));
                }
            },
            ElementState::Released => {
                self.release(input);
                assert(self@ == old(self)@.update(input, state, arbitrary()));
            },
        }
    }

    /// The keys (by meaning) that were just pressed, each once.
    pub fn key_just_pressed_iter(&self) -> (keys: Vec<KeyCode>)
        ensures
            keys@.no_duplicates(),
            forall|key: KeyCode|
                keys@.contains(key) <==> self@.inputs.just_pressed.contains(GenericInput::KeyCode(key)),
    {
        let fresh = self.just_pressed_iter();
        proof {
            keyboard_keys_of_membership(fresh@);
        }
        filter_keyboard_keys(fresh.as_slice())
    }

    /// The mouse buttons that were just pressed, each once.
    pub fn button_just_pressed_iter(&self) -> (buttons: Vec<MouseButton>)
        ensures
            buttons@.no_duplicates(),
            forall|button: MouseButton|
                buttons@.contains(button) <==> self@.inputs.just_pressed.contains(
                    GenericInput::MouseButton(button),
                ),
    {
        let fresh = self.just_pressed_iter();
        proof {
            mouse_buttons_of_membership(fresh@);
        }
        filter_mouse_buttons(fresh.as_slice())
    }

    /// The keys (by meaning) that were just released, each once.
    pub fn key_just_released_iter(&self) -> (keys: Vec<KeyCode>)
        ensures
            keys@.no_duplicates(),
            forall|key: KeyCode|
                keys@.contains(key) <==> self@.inputs.just_released.contains(GenericInput::KeyCode(key)),
    {
        let fresh = self.just_released_iter();
        proof {
            keyboard_keys_of_membership(fresh@);
        }
        filter_keyboard_keys(fresh.as_slice())
    }

    /// The mouse buttons that were just released, each once.
    pub fn button_just_released_iter(&self) -> (buttons: Vec<MouseButton>)
        ensures
            buttons@.no_duplicates(),
            forall|button: MouseButton|
                buttons@.contains(button) <==> self@.inputs.just_released.contains(
                    GenericInput::MouseButton(button),
                ),
    {
        let fresh = self.just_released_iter();
        proof {
            mouse_buttons_of_membership(fresh@);
        }
        filter_mouse_buttons(fresh.as_slice())
    }

    /// The keys (by meaning) that are held, each once.
    pub fn key_pressed_iter(&self) -> (keys: Vec<KeyCode>)
        ensures
            keys@.no_duplicates(),
            forall|key: KeyCode|
                keys@.contains(key) <==> self@.inputs.pressed.dom().contains(GenericInput::KeyCode(key)),
    {
        let held = self.pressed_iter();
        proof {
            keyboard_keys_of_membership(held@);
        }
        filter_keyboard_keys(held.as_slice())
    }

    /// The mouse buttons that are held, each once.
    pub fn button_pressed_iter(&self) -> (buttons: Vec<MouseButton>)
        ensures
            buttons@.no_duplicates(),
            forall|button: MouseButton|
                buttons@.contains(button) <==> self@.inputs.pressed.dom().contains(
                    GenericInput::MouseButton(button),
                ),
    {
        let held = self.pressed_iter();
        proof {
            mouse_buttons_of_membership(held@);
        }
        filter_mouse_buttons(held.as_slice())
    }
}

/// The key (by meaning) that an input is, if it is one.
pub open spec fn key_of(input: GenericInput) -> Option<KeyCode> {
    match input {
        GenericInput::KeyCode(key) => Some(key),
        _ => None,
    }
}

/// The mouse button that an input is, if it is one.
pub open spec fn button_of(input: GenericInput) -> Option<MouseButton> {
    match input {
        GenericInput::MouseButton(button) => Some(button),
        _ => None,
    }
}

/// The keys (by meaning) among `inputs`, in their order.
pub open spec fn keyboard_keys_of(inputs: Seq<GenericInput>) -> Seq<KeyCode> {
    picked(inputs, |input: GenericInput| key_of(input))
}

/// The mouse buttons among `inputs`, in their order.
pub open spec fn mouse_buttons_of(inputs: Seq<GenericInput>) -> Seq<MouseButton> {
    picked(inputs, |input: GenericInput| button_of(input))
}

/// A key is among the keys of `inputs` exactly if it is among `inputs`, and
/// no key is repeated unless an input is.
pub proof fn keyboard_keys_of_membership(inputs: Seq<GenericInput>)
    ensures
        forall|key: KeyCode|
            keyboard_keys_of(inputs).contains(key) <==> inputs.contains(GenericInput::KeyCode(key)),
        inputs.no_duplicates() ==> keyboard_keys_of(inputs).no_duplicates(),
{
    let pick = |input: GenericInput| key_of(input);
    picked_membership(inputs, pick);
    assert forall|key: KeyCode|
        keyboard_keys_of(inputs).contains(key) <==> inputs.contains(GenericInput::KeyCode(key)) by {
        if inputs.contains(GenericInput::KeyCode(key)) {
            let j = choose|j: int| 0 <= j < inputs.len() && inputs[j] == GenericInput::KeyCode(key);
            assert(pick(inputs[j]) == Some(key));
        }
    }
}

/// A mouse button is among the buttons of `inputs` exactly if it is among
/// `inputs`, and no button is repeated unless an input is.
pub proof fn mouse_buttons_of_membership(inputs: Seq<GenericInput>)
    ensures
        forall|button: MouseButton|
            mouse_buttons_of(inputs).contains(button) <==> inputs.contains(
                GenericInput::MouseButton(button),
            ),
        inputs.no_duplicates() ==> mouse_buttons_of(inputs).no_duplicates(),
{
    let pick = |input: GenericInput| button_of(input);
    picked_membership(inputs, pick);
    assert forall|button: MouseButton|
        mouse_buttons_of(inputs).contains(button) <==> inputs.contains(
            GenericInput::MouseButton(button),
        ) by {
        if inputs.contains(GenericInput::MouseButton(button)) {
            let j = choose|j: int| 0 <= j < inputs.len() && inputs[j] == GenericInput::MouseButton(button);
            assert(pick(inputs[j]) == Some(button));
        }
    }
}

/// Picks the keys (by meaning) out of `inputs`; inputs of another kind are
/// passed over.
pub fn filter_keyboard_keys(inputs: &[GenericInput]) -> (keys: Vec<KeyCode>)
    ensures
        keys@ == keyboard_keys_of(inputs@),
{
    let mut keys: Vec<KeyCode> = Vec::new();
    let mut i: usize = 0;
    while i < inputs.len()
        invariant
            i <= inputs@.len(),
            keys@ == keyboard_keys_of(inputs@.take(i as int)),
        decreases inputs@.len() - i,
    {
        assert(inputs@.take(i + 1).drop_last() =~= inputs@.take(i as int));
        match inputs[i].key_code() {
            Some(key) => {
                keys.push(key);
            },
            None => {},
        }
        i += 1;
    }
    assert(inputs@.take(i as int) =~= inputs@);
    keys
}

/// Picks the mouse buttons out of `inputs`; inputs of another kind are
/// passed over.
pub fn filter_mouse_buttons(inputs: &[GenericInput]) -> (buttons: Vec<MouseButton>)
    ensures
        buttons@ == mouse_buttons_of(inputs@),
{
    let mut buttons: Vec<MouseButton> = Vec::new();
    let mut i: usize = 0;
    while i < inputs.len()
        invariant
            i <= inputs@.len(),
            buttons@ == mouse_buttons_of(inputs@.take(i as int)),
        decreases inputs@.len() - i,
    {
        assert(inputs@.take(i + 1).drop_last() =~= inputs@.take(i as int));
        match inputs[i].mouse_button() {
            Some(button) => {
                buttons.push(button);
            },
            None => {},
        }
        i += 1;
    }
    assert(inputs@.take(i as int) =~= inputs@);
    buttons
}

impl InputData {
    /// Whether the combination holds in the sense of `trigger`.
    pub fn holds(&self, trigger: Trigger, inputs: &[GenericInput], modifiers: Modifiers) -> (holds: bool)
        ensures
            holds == self@.holds(trigger, inputs@, modifiers),
    {
        match trigger {
            Trigger::Pressed => self.pressed_combination(inputs, modifiers),
            Trigger::JustPressed => self.just_pressed_combination(inputs, modifiers),
            Trigger::JustReleased => self.just_released_combination(inputs, modifiers),
        }
    }

    /// Calls, in the order of the bindings, the callbacks of those bindings
    /// whose combination holds in the sense of `trigger`.
    pub fn call_bound<D, C: Callback<D>>(&self, trigger: Trigger, bindings: &Bindings<C>, state: &mut D)
        ensures
            effects(fired(bindings@, self@.test(trigger)), *old(state), *final(state)),
    {
        let ghost start = *state;
        let ghost test = self@.test(trigger);
        let mut i: usize = 0;
        while i < bindings.len()
            invariant
                i <= bindings@.len(),
                test == self@.test(trigger),
                effects(fired(bindings@.take(i as int), test), start, *state),
            decreases bindings@.len() - i,
        {
            let binding = bindings.entry(i);
            let ghost between = *state;
            assert(bindings@.take(i + 1).drop_last() =~= bindings@.take(i as int));
            assert(bindings@.take(i + 1).last() == binding@);
            if self.holds(trigger, binding.inputs(), binding.modifiers()) {
                binding.callback().call(state);
                proof {
                    effects_extend(
                        fired(bindings@.take(i as int), test),
                        binding@.callback,
                        start,
                        between,
                        *state,
                    );
                }
            }
            i += 1;
        }
        assert(bindings@.take(i as int) =~= bindings@);
    }

    /// Calls the callbacks whose combinations hold: first those for held
    /// combinations, then those for combinations just pressed, then those
    /// for combinations just released.
    pub fn call_callbacks<D, C: Callback<D>>(&self, state: &mut D, callbacks: &InputCallbacks<C>)
        ensures
            effects(self@.plan(*callbacks), *old(state), *final(state)),
    {
        let ghost start = *state;
        self.call_bound(Trigger::Pressed, &callbacks.pressed, state);
        let ghost first = *state;
        self.call_bound(Trigger::JustPressed, &callbacks.just_pressed, state);
        let ghost second = *state;
        self.call_bound(Trigger::JustReleased, &callbacks.just_released, state);
        proof {
            let held = fired(callbacks.pressed@, self@.test(Trigger::Pressed));
            let down = fired(callbacks.just_pressed@, self@.test(Trigger::JustPressed));
            let up = fired(callbacks.just_released@, self@.test(Trigger::JustReleased));
            effects_compose(held, down, start, first, second);
            effects_compose(held + down, up, start, second, *state);
        }
    }
}

impl Clone for InputData {
    /// A second tracker that knows what this one knows.
    fn clone(&self) -> (copy: Self)
        ensures
            copy@ == self@,
    {
        InputData { inputs: self.inputs.clone(), modifiers: self.modifiers }
    }
}

impl Twin for InputData {
    open spec fn alike(&self, other: &Self) -> bool {
        other@ == self@
    }

    fn twin(&self) -> (copy: Self) {
        self.clone()
    }
}

impl Clone for InputDataWithId {
    /// A second set of trackers, device by device, that know what these
    /// know.
    fn clone(&self) -> (copy: Self)
        ensures
            self.wf() ==> copy.wf() && copy@ == self@,
            copy.order() == self.order(),
    {
        let copy = InputDataWithId { shards: self.shards.clone() };
        proof {
            if self.wf() {
                assert(copy@ =~= self@);
            }
        }
        copy
    }
}

impl Blank for InputData {
    open spec fn is_blank(&self) -> bool {
        self@ == InputDataView::empty()
    }

    fn blank() -> (fresh: Self) {
        InputData::default()
    }
}

impl<C> Blank for InputCallbacks<C> {
    open spec fn is_blank(&self) -> bool {
        &&& self.wf()
        &&& self.pressed@ == Seq::<crate::input::callbacks::Bound<C>>::empty()
        &&& self.just_pressed@ == Seq::<crate::input::callbacks::Bound<C>>::empty()
        &&& self.just_released@ == Seq::<crate::input::callbacks::Bound<C>>::empty()
    }

    fn blank() -> (fresh: Self) {
        InputCallbacks::default()
    }
}

/// The callbacks that are called for the shards listed in `order`, shard
/// after shard: for each device those of its own bindings that hold of its
/// own tracker.
pub open spec fn sharded_plan<C>(
    order: Seq<u64>,
    trackers: Map<u64, InputData>,
    callbacks: Map<u64, InputCallbacks<C>>,
    unbound: InputCallbacks<C>,
) -> Seq<C>
    decreases order.len(),
{
    if order.len() == 0 {
        Seq::empty()
    } else {
        let device = order.last();
        let bound = if callbacks.dom().contains(device) {
            callbacks[device]
        } else {
            unbound
        };
        sharded_plan(order.drop_last(), trackers, callbacks, unbound) + trackers[device]@.plan(bound)
    }
}

/// One input tracker for each device, made when the device is first heard
/// of.
pub struct InputDataWithId {
    shards: DefaultAHashMap<InputData>,
}

impl View for InputDataWithId {
    type V = Map<u64, InputDataView>;

    closed spec fn view(&self) -> Map<u64, InputDataView> {
        Map::new(|device: u64| self.shards@.dom().contains(device), |device: u64| self.shards@[device]@)
    }
}

impl InputDataWithId {
    /// The parts of the map fit together, and the tracker that is read for
    /// an unknown device is blank.
    pub closed spec fn wf(&self) -> bool {
        self.shards.wf() && self.shards.default_value().is_blank()
    }

    /// The devices that have a tracker, in the order in which they were
    /// first heard of.
    pub closed spec fn order(&self) -> Seq<u64> {
        self.shards.order()
    }

    /// The trackers themselves.
    pub closed spec fn trackers(&self) -> Map<u64, InputData> {
        self.shards@
    }

    /// What a device's tracker knows; nothing, for a device without one.
    pub open spec fn of_device(&self, device: u64) -> InputDataView {
        if self@.dom().contains(device) {
            self@[device]
        } else {
            InputDataView::empty()
        }
    }

    /// No device has a tracker yet.
    pub fn new() -> (sharded: Self)
        ensures
            sharded.wf(),
            sharded@ == Map::<u64, InputDataView>::empty(),
            sharded.order() == Seq::<u64>::empty(),
    {
        let sharded = InputDataWithId { shards: DefaultAHashMap::new() };
        assert(sharded@ =~= Map::<u64, InputDataView>::empty());
        sharded
    }

    /// Whether the device has a tracker of its own.
    pub fn contains_key(&self, device: u64) -> (found: bool)
        ensures
            found == self@.dom().contains(device),
    {
        self.shards.contains_key(device)
    }

    /// The number of devices that have a tracker of their own.
    pub fn len(&self) -> (count: usize)
        requires
            self.wf(),
        ensures
            count == self.order().len(),
            count == self@.dom().len(),
    {
        assert(self@.dom() =~= self.shards@.dom());
        self.shards.len()
    }

    /// The tracker of the device. A device without a tracker is answered
    /// with a blank one; reading makes no tracker.
    pub fn get(&self, device: u64) -> (tracker: &InputData)
        requires
            self.wf(),
        ensures
            tracker@ == self.of_device(device),
    {
        self.shards.get(device)
    }

    /// The tracker of the device, to be changed in place. A device without
    /// a tracker gets a blank one first.
    pub fn get_mut(&mut self, device: u64) -> (tracker: &mut InputData)
        requires
            old(self).wf(),
        ensures
            tracker@ == old(self).of_device(device),
            final(self).wf(),
            final(self)@ == old(self)@.insert(device, final(tracker)@),
            final(self).order() == if old(self)@.dom().contains(device) {
                old(self).order()
            } else {
                old(self).order().push(device)
            },
    {
        proof {
            assert forall|shards: DefaultAHashMap<InputData>|
                shards@ == old(self).shards@.insert(device, shards@[device]) implies (
            #[trigger] InputDataWithId { shards }@) =~= old(self)@.insert(device, shards@[device]@) by {}
        }
        self.shards.get_mut(device)
    }

    /// Registers `input` of `device` as pressed or released, as `state`
    /// says, at the instant `at`. Other devices are not touched.
    pub fn update_at(&mut self, device: u64, input: GenericInput, state: ElementState, at: Instant)
        requires
            old(self).wf(),
        ensures
            final(self).wf(),
            final(self)@ == old(self)@.insert(device, old(self).of_device(device).update(input, state, at)),
            final(self).order() == if old(self)@.dom().contains(device) {
                old(self).order()
            } else {
                old(self).order().push(device)
            },
    {
        let tracker = self.get_mut(device);
        tracker.update_at(input, state, at);
    }

    /// Forgets, for every device, what was just pressed and just released.
    pub fn clear(&mut self)
        requires
            old(self).wf(),
        ensures
            final(self).wf(),
            final(self).order() == old(self).order(),
            final(self)@.dom() == old(self)@.dom(),
            forall|device: u64|
                old(self)@.dom().contains(device) ==> #[trigger] final(self)@[device] == old(
                    self,
                )@[device].clear(),
    {
        let count = self.shards.len();
        let mut i: usize = 0;
        while i < count
            invariant
                i <= count,
                count == self.shards.order().len(),
                self.wf(),
                self.order() == old(self).order(),
                self@.dom() == old(self)@.dom(),
                forall|j: int|
                    0 <= j < i ==> self@[#[trigger] self.order()[j]] == old(self)@[self.order()[j]].clear(),
                forall|j: int|
                    i <= j < count ==> self@[#[trigger] self.order()[j]] == old(self)@[self.order()[j]],
            decreases count - i,
        {
            proof {
                self.shards.order_lists_the_domain();
            }
            let ghost before = *self;
            let ghost device = self.shards.order()[i as int];
            let tracker = self.shards.value_at_mut(i);
            tracker.clear();
            proof {
                assert(self@.dom() =~= before@.dom());
                assert forall|j: int| 0 <= j < count && j != i implies self@[#[trigger] self.order()[j]]
                    == before@[self.order()[j]] by {
                    assert(self.order()[j] != device);
                }
            }
            i += 1;
        }
        proof {
            self.shards.order_lists_the_domain();
            assert forall|device: u64| old(self)@.dom().contains(device) implies #[trigger] self@[device]
                == old(self)@[device].clear() by {
                assert(self.order().to_set().contains(device));
                let j = choose|j: int| 0 <= j < self.order().len() && self.order()[j] == device;
                assert(self@[self.order()[j]] == old(self)@[self.order()[j]].clear());
            }
        }
    }

    /// Calls, device after device, the callbacks that are bound for the
    /// device and whose combinations hold of the device's tracker.
    pub fn call_callbacks<D, C: Callback<D>>(
        &self,
        state: &mut D,
        callbacks: &DefaultAHashMap<InputCallbacks<C>>,
    )
        requires
            self.wf(),
            callbacks.wf(),
        ensures
            effects(
                sharded_plan(self.order(), self.trackers(), callbacks@, callbacks.default_value()),
                *old(state),
                *final(state),
            ),
    {
        let ghost start = *state;
        let count = self.shards.len();
        let mut i: usize = 0;
        while i < count
            invariant
                i <= count,
                count == self.order().len(),
                self.wf(),
                callbacks.wf(),
                effects(
                    sharded_plan(
                        self.order().take(i as int),
                        self.trackers(),
                        callbacks@,
                        callbacks.default_value(),
                    ),
                    start,
                    *state,
                ),
            decreases count - i,
        {
            let ghost between = *state;
            let ghost earlier = sharded_plan(
                self.order().take(i as int),
                self.trackers(),
                callbacks@,
                callbacks.default_value(),
            );
            assert(self.order().take(i + 1).drop_last() =~= self.order().take(i as int));
            let device = self.shards.key_at(i);
            let tracker = self.shards.value_at(i);
            let bound = callbacks.get(device);
            tracker.call_callbacks(state, bound);
            proof {
                effects_compose(earlier, tracker@.plan(*bound), start, between, *state);
            }
            i += 1;
        }
        assert(self.order().take(i as int) =~= self.order());
    }
}

} // verus!
