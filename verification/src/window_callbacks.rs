//! Callbacks that are called as soon as an event of a window is taken in.

use crate::callback_data::{CallbackData, DataView};
use crate::clock;
use crate::default_ahashmap::DefaultAHashMap;
use crate::definitions::{KeyCode, MouseButton, Quit, Symbol};
use crate::dispatch::{Callback, CallbackWith};
use crate::events::WindowEvent;
use crate::input::{
    element_state_callbacks, kept_under, send_signals, signal_code, signals_effect, signals_of,
    GeneralInput, Signal, State,
};
use std::time::Instant;
use vstd::prelude::*;

verus! {

/// The kinds of events of a window.
#[derive(Clone, Copy, Debug, PartialEq, Eq, Hash, Structural)]
pub enum WindowEventKind {
    Resized,
    Moved,
    CloseRequested,
    Destroyed,
    DroppedFile,
    HoveredFile,
    HoveredFileCancelled,
    ReceivedCharacter,
    Focused,
    KeyboardInput,
    ModifiersChanged,
    Ime,
    CursorMoved,
    CursorEntered,
    CursorLeft,
    MouseWheel,
    MouseInput,
    TouchpadMagnify,
    SmartMagnify,
    TouchpadRotate,
    TouchpadPressure,
    AxisMotion,
    Touch,
    ScaleFactorChanged,
    ThemeChanged,
    Occluded,
}

impl WindowEventKind {
    /// The kind of an event.
    pub open spec fn of(event: WindowEvent) -> WindowEventKind {
        match event {
            WindowEvent::Resized(..) => WindowEventKind::Resized,
            WindowEvent::Moved(..) => WindowEventKind::Moved,
            WindowEvent::CloseRequested => WindowEventKind::CloseRequested,
            WindowEvent::Destroyed => WindowEventKind::Destroyed,
            WindowEvent::DroppedFile(..) => WindowEventKind::DroppedFile,
            WindowEvent::HoveredFile(..) => WindowEventKind::HoveredFile,
            WindowEvent::HoveredFileCancelled => WindowEventKind::HoveredFileCancelled,
            WindowEvent::ReceivedCharacter(..) => WindowEventKind::ReceivedCharacter,
            WindowEvent::Focused(..) => WindowEventKind::Focused,
            WindowEvent::KeyboardInput { .. } => WindowEventKind::KeyboardInput,
            WindowEvent::ModifiersChanged(..) => WindowEventKind::ModifiersChanged,
            WindowEvent::Ime(..) => WindowEventKind::Ime,
            WindowEvent::CursorMoved { .. } => WindowEventKind::CursorMoved,
            WindowEvent::CursorEntered { .. } => WindowEventKind::CursorEntered,
            WindowEvent::CursorLeft { .. } => WindowEventKind::CursorLeft,
            WindowEvent::MouseWheel { .. } => WindowEventKind::MouseWheel,
            WindowEvent::MouseInput { .. } => WindowEventKind::MouseInput,
            WindowEvent::TouchpadMagnify { .. } => WindowEventKind::TouchpadMagnify,
            WindowEvent::SmartMagnify { .. } => WindowEventKind::SmartMagnify,
            WindowEvent::TouchpadRotate { .. } => WindowEventKind::TouchpadRotate,
            WindowEvent::TouchpadPressure { .. } => WindowEventKind::TouchpadPressure,
            WindowEvent::AxisMotion { .. } => WindowEventKind::AxisMotion,
            WindowEvent::Touch(..) => WindowEventKind::Touch,
            WindowEvent::ScaleFactorChanged { .. } => WindowEventKind::ScaleFactorChanged,
            WindowEvent::ThemeChanged(..) => WindowEventKind::ThemeChanged,
            WindowEvent::Occluded(..) => WindowEventKind::Occluded,
        }
    }

    /// The number under which the callback for the kind is kept.
    pub open spec fn index_of(self) -> u64 {
        match self {
            WindowEventKind::Resized => 0,
            WindowEventKind::Moved => 1,
            WindowEventKind::CloseRequested => 2,
            WindowEventKind::Destroyed => 3,
            WindowEventKind::DroppedFile => 4,
            WindowEventKind::HoveredFile => 5,
            WindowEventKind::HoveredFileCancelled => 6,
            WindowEventKind::ReceivedCharacter => 7,
            WindowEventKind::Focused => 8,
            WindowEventKind::KeyboardInput => 9,
            WindowEventKind::ModifiersChanged => 10,
            WindowEventKind::Ime => 11,
            WindowEventKind::CursorMoved => 12,
            WindowEventKind::CursorEntered => 13,
            WindowEventKind::CursorLeft => 14,
            WindowEventKind::MouseWheel => 15,
            WindowEventKind::MouseInput => 16,
            WindowEventKind::TouchpadMagnify => 17,
            WindowEventKind::SmartMagnify => 18,
            WindowEventKind::TouchpadRotate => 19,
            WindowEventKind::TouchpadPressure => 20,
            WindowEventKind::AxisMotion => 21,
            WindowEventKind::Touch => 22,
            WindowEventKind::ScaleFactorChanged => 23,
            WindowEventKind::ThemeChanged => 24,
            WindowEventKind::Occluded => 25,
        }
    }

    /// Different kinds are kept under different numbers.
    pub proof fn numbers_are_distinct(self, other: WindowEventKind)
        ensures
            self.index_of() == other.index_of() ==> self == other,
    {
    }

    /// Tells the kind of an event.
    pub fn kind_of(event: &WindowEvent) -> (kind: WindowEventKind)
        ensures
            kind == Self::of(*event),
    {
        match event {
            WindowEvent::Resized(..) => WindowEventKind::Resized,
            WindowEvent::Moved(..) => WindowEventKind::Moved,
            WindowEvent::CloseRequested => WindowEventKind::CloseRequested,
            WindowEvent::Destroyed => WindowEventKind::Destroyed,
            WindowEvent::DroppedFile(..) => WindowEventKind::DroppedFile,
            WindowEvent::HoveredFile(..) => WindowEventKind::HoveredFile,
            WindowEvent::HoveredFileCancelled => WindowEventKind::HoveredFileCancelled,
            WindowEvent::ReceivedCharacter(..) => WindowEventKind::ReceivedCharacter,
            WindowEvent::Focused(..) => WindowEventKind::Focused,
            WindowEvent::KeyboardInput { .. } => WindowEventKind::KeyboardInput,
            WindowEvent::ModifiersChanged(..) => WindowEventKind::ModifiersChanged,
            WindowEvent::Ime(..) => WindowEventKind::Ime,
            WindowEvent::CursorMoved { .. } => WindowEventKind::CursorMoved,
            WindowEvent::CursorEntered { .. } => WindowEventKind::CursorEntered,
            WindowEvent::CursorLeft { .. } => WindowEventKind::CursorLeft,
            WindowEvent::MouseWheel { .. } => WindowEventKind::MouseWheel,
            WindowEvent::MouseInput { .. } => WindowEventKind::MouseInput,
            WindowEvent::TouchpadMagnify { .. } => WindowEventKind::TouchpadMagnify,
            WindowEvent::SmartMagnify { .. } => WindowEventKind::SmartMagnify,
            WindowEvent::TouchpadRotate { .. } => WindowEventKind::TouchpadRotate,
            WindowEvent::TouchpadPressure { .. } => WindowEventKind::TouchpadPressure,
            WindowEvent::AxisMotion { .. } => WindowEventKind::AxisMotion,
            WindowEvent::Touch(..) => WindowEventKind::Touch,
            WindowEvent::ScaleFactorChanged { .. } => WindowEventKind::ScaleFactorChanged,
            WindowEvent::ThemeChanged(..) => WindowEventKind::ThemeChanged,
            WindowEvent::Occluded(..) => WindowEventKind::Occluded,
        }
    }

    /// Computes the number under which the callback for the kind is kept.
    pub fn index(self) -> (index: u64)
        ensures
            index == self.index_of(),
    {
        match self {
            WindowEventKind::Resized => 0,
            WindowEventKind::Moved => 1,
            WindowEventKind::CloseRequested => 2,
            WindowEventKind::Destroyed => 3,
            WindowEventKind::DroppedFile => 4,
            WindowEventKind::HoveredFile => 5,
            WindowEventKind::HoveredFileCancelled => 6,
            WindowEventKind::ReceivedCharacter => 7,
            WindowEventKind::Focused => 8,
            WindowEventKind::KeyboardInput => 9,
            WindowEventKind::ModifiersChanged => 10,
            WindowEventKind::Ime => 11,
            WindowEventKind::CursorMoved => 12,
            WindowEventKind::CursorEntered => 13,
            WindowEventKind::CursorLeft => 14,
            WindowEventKind::MouseWheel => 15,
            WindowEventKind::MouseInput => 16,
            WindowEventKind::TouchpadMagnify => 17,
            WindowEventKind::SmartMagnify => 18,
            WindowEventKind::TouchpadRotate => 19,
            WindowEventKind::TouchpadPressure => 20,
            WindowEventKind::AxisMotion => 21,
            WindowEventKind::Touch => 22,
            WindowEventKind::ScaleFactorChanged => 23,
            WindowEventKind::ThemeChanged => 24,
            WindowEventKind::Occluded => 25,
        }
    }
}

/// What the data holds once an event of a window has been taken in, before
/// any callback is called. Inputs, text and the turn of the mouse wheel are
/// taken from the event unless they are to be taken from the events of
/// devices. Inputs that go down do so at the instant `at`.
pub open spec fn taken_in<D>(data: DataView<D>, event: WindowEvent, at: Instant) -> DataView<D> {
    match event {
        WindowEvent::Focused(focused) => DataView { focused, ..data },
        WindowEvent::Destroyed => DataView {
            quit: Quit { bits: data.quit.bits | Quit::WINDOW_DESTROYED },
            ..data
        },
        WindowEvent::MouseInput { device_id, state, button } => if data.save_device_inputs {
            data
        } else {
            data.input(GeneralInput::MouseButton(button), state, at)
        },
        WindowEvent::KeyboardInput { device_id, input } => match input.virtual_keycode {
            Some(key) => if data.save_device_inputs {
                data
            } else {
                data.input(GeneralInput::KeyCode(key), input.state, at)
            },
            None => data,
        },
        WindowEvent::ReceivedCharacter(codepoint) => if data.save_device_inputs {
            data
        } else {
            DataView { text: data.text.push(codepoint), ..data }
        },
        WindowEvent::MouseWheel { device_id, delta, phase } => if data.save_device_inputs {
            data
        } else {
            DataView { mouse_wheel: delta, ..data }
        },
        _ => data,
    }
}

/// The callbacks for the events of a window.
pub struct WindowCallbacks<C, G, K, M> {
    /// For each kind of event but those of keys and mouse buttons, the
    /// callback that is called with the event.
    pub on_event: DefaultAHashMap<Option<G>>,
    /// For single keys and signals, the callback that is called.
    pub keyboard_input: DefaultAHashMap<Option<C>>,
    /// The callback that is called for every key and signal.
    pub keyboard_input_any: Option<K>,
    /// For single mouse buttons and signals, the callback that is called.
    pub mouse_input: DefaultAHashMap<Option<C>>,
    /// The callback that is called for every mouse button and signal.
    pub mouse_input_any: Option<M>,
}

impl<C, G, K, M> WindowCallbacks<C, G, K, M> {
    /// The maps are in order, and where no callback is registered there is
    /// none.
    pub open spec fn wf(&self) -> bool {
        &&& self.on_event.wf()
        &&& self.on_event.default_value() is None
        &&& self.keyboard_input.wf()
        &&& self.keyboard_input.default_value() is None
        &&& self.mouse_input.wf()
        &&& self.mouse_input.default_value() is None
    }

    /// The callback for a key and a signal, if there is one.
    pub open spec fn key_callback(&self, key: KeyCode, state: State) -> Option<C> {
        kept_under(self.keyboard_input@, signal_code(key.code(), state))
    }

    /// The callback for a mouse button and a signal, if there is one.
    pub open spec fn button_callback(&self, button: MouseButton, state: State) -> Option<C> {
        kept_under(self.mouse_input@, signal_code(button.code(), state))
    }

    /// The callback for a kind of event, if there is one.
    pub open spec fn event_callback(&self, kind: WindowEventKind) -> Option<G> {
        kept_under(self.on_event@, kind.index_of())
    }

    /// What registering `callback` for a kind of event does: the kind has
    /// this callback afterwards, and nothing else changes.
    pub open spec fn registered_on(before: Self, kind: WindowEventKind, callback: G, after: Self) -> bool {
        &&& after.wf()
        &&& after.event_callback(kind) == Some(callback)
        &&& forall|other: WindowEventKind|
            other != kind ==> after.event_callback(other) == before.event_callback(other)
        &&& after.keyboard_input == before.keyboard_input
        &&& after.keyboard_input_any == before.keyboard_input_any
        &&& after.mouse_input == before.mouse_input
        &&& after.mouse_input_any == before.mouse_input_any
    }

    /// No callback at all.
    pub fn new() -> (callbacks: Self)
        ensures
            callbacks.wf(),
            callbacks.on_event@ == Map::<u64, Option<G>>::empty(),
            callbacks.keyboard_input@ == Map::<u64, Option<C>>::empty(),
            callbacks.mouse_input@ == Map::<u64, Option<C>>::empty(),
            callbacks.keyboard_input_any is None,
            callbacks.mouse_input_any is None,
    {
        WindowCallbacks {
            on_event: DefaultAHashMap::new(),
            keyboard_input: DefaultAHashMap::new(),
            keyboard_input_any: None,
            mouse_input: DefaultAHashMap::new(),
            mouse_input_any: None,
        }
    }

    /// Registers the callback for a kind of event; the last callback
    /// registered for a kind is the one that is called.
    pub fn on(&mut self, kind: WindowEventKind, callback: G)
        requires
            old(self).wf(),
        ensures
            final(self).wf(),
            final(self).event_callback(kind) == Some(callback),
            forall|other: WindowEventKind|
                other != kind ==> final(self).event_callback(other) == old(self).event_callback(other),
            final(self).keyboard_input == old(self).keyboard_input,
            final(self).keyboard_input_any == old(self).keyboard_input_any,
            final(self).mouse_input == old(self).mouse_input,
            final(self).mouse_input_any == old(self).mouse_input_any,
    {
        proof {
            assert forall|other: WindowEventKind| other != kind implies other.index_of()
                != kind.index_of() by {
                other.numbers_are_distinct(kind);
            }
        }
        self.on_event.insert(kind.index(), Some(callback));
    }

    /// Registers the callback that is called when an axis of a device moves.
    pub fn axis_motion(&mut self, callback: G)
        requires
            old(self).wf(),
        ensures
            Self::registered_on(*old(self), WindowEventKind::AxisMotion, callback, *final(self)),
    {
        self.on(WindowEventKind::AxisMotion, callback);
    }

    /// Registers the callback that is called when the window is asked to close.
    pub fn close_requested(&mut self, callback: G)
        requires
            old(self).wf(),
        ensures
            Self::registered_on(*old(self), WindowEventKind::CloseRequested, callback, *final(self)),
    {
        self.on(WindowEventKind::CloseRequested, callback);
    }

    /// Registers the callback that is called when the cursor enters the window.
    pub fn cursor_entered(&mut self, callback: G)
        requires
            old(self).wf(),
        ensures
            Self::registered_on(*old(self), WindowEventKind::CursorEntered, callback, *final(self)),
    {
        self.on(WindowEventKind::CursorEntered, callback);
    }

    /// Registers the callback that is called when the cursor leaves the window.
    pub fn cursor_left(&mut self, callback: G)
        requires
            old(self).wf(),
        ensures
            Self::registered_on(*old(self), WindowEventKind::CursorLeft, callback, *final(self)),
    {
        self.on(WindowEventKind::CursorLeft, callback);
    }

    /// Registers the callback that is called when the cursor moves.
    pub fn cursor_moved(&mut self, callback: G)
        requires
            old(self).wf(),
        ensures
            Self::registered_on(*old(self), WindowEventKind::CursorMoved, callback, *final(self)),
    {
        self.on(WindowEventKind::CursorMoved, callback);
    }

    /// Registers the callback that is called when the window is destroyed.
    pub fn destroyed(&mut self, callback: G)
        requires
            old(self).wf(),
        ensures
            Self::registered_on(*old(self), WindowEventKind::Destroyed, callback, *final(self)),
    {
        self.on(WindowEventKind::Destroyed, callback);
    }

    /// Registers the callback that is called when a file is dropped on the window.
    pub fn dropped_file(&mut self, callback: G)
        requires
            old(self).wf(),
        ensures
            Self::registered_on(*old(self), WindowEventKind::DroppedFile, callback, *final(self)),
    {
        self.on(WindowEventKind::DroppedFile, callback);
    }

    /// Registers the callback that is called when the window gains or loses the focus.
    pub fn focused(&mut self, callback: G)
        requires
            old(self).wf(),
        ensures
            Self::registered_on(*old(self), WindowEventKind::Focused, callback, *final(self)),
    {
        self.on(WindowEventKind::Focused, callback);
    }

    /// Registers the callback that is called when a file hovers over the window.
    pub fn hovered_file(&mut self, callback: G)
        requires
            old(self).wf(),
        ensures
            Self::registered_on(*old(self), WindowEventKind::HoveredFile, callback, *final(self)),
    {
        self.on(WindowEventKind::HoveredFile, callback);
    }

    /// Registers the callback that is called when a hovering file is taken away.
    pub fn hovered_file_canceled(&mut self, callback: G)
        requires
            old(self).wf(),
        ensures
            Self::registered_on(*old(self), WindowEventKind::HoveredFileCancelled, callback, *final(self)),
    {
        self.on(WindowEventKind::HoveredFileCancelled, callback);
    }

    /// Registers the callback that is called when the input method reports.
    pub fn ime(&mut self, callback: G)
        requires
            old(self).wf(),
        ensures
            Self::registered_on(*old(self), WindowEventKind::Ime, callback, *final(self)),
    {
        self.on(WindowEventKind::Ime, callback);
    }

    /// Registers the callback that is called when the modifier keys change.
    pub fn modifiers_changed(&mut self, callback: G)
        requires
            old(self).wf(),
        ensures
            Self::registered_on(*old(self), WindowEventKind::ModifiersChanged, callback, *final(self)),
    {
        self.on(WindowEventKind::ModifiersChanged, callback);
    }

    /// Registers the callback that is called when the mouse wheel turns.
    pub fn mouse_wheel(&mut self, callback: G)
        requires
            old(self).wf(),
        ensures
            Self::registered_on(*old(self), WindowEventKind::MouseWheel, callback, *final(self)),
    {
        self.on(WindowEventKind::MouseWheel, callback);
    }

    /// Registers the callback that is called when the window moves.
    pub fn moved(&mut self, callback: G)
        requires
            old(self).wf(),
        ensures
            Self::registered_on(*old(self), WindowEventKind::Moved, callback, *final(self)),
    {
        self.on(WindowEventKind::Moved, callback);
    }

    /// Registers the callback that is called when the window is covered or uncovered.
    pub fn occluded(&mut self, callback: G)
        requires
            old(self).wf(),
        ensures
            Self::registered_on(*old(self), WindowEventKind::Occluded, callback, *final(self)),
    {
        self.on(WindowEventKind::Occluded, callback);
    }

    /// Registers the callback that is called when a character is typed.
    pub fn received_character(&mut self, callback: G)
        requires
            old(self).wf(),
        ensures
            Self::registered_on(*old(self), WindowEventKind::ReceivedCharacter, callback, *final(self)),
    {
        self.on(WindowEventKind::ReceivedCharacter, callback);
    }

    /// Registers the callback that is called when the window changes its size.
    pub fn resized(&mut self, callback: G)
        requires
            old(self).wf(),
        ensures
            Self::registered_on(*old(self), WindowEventKind::Resized, callback, *final(self)),
    {
        self.on(WindowEventKind::Resized, callback);
    }

    /// Registers the callback that is called when the scale factor changes.
    pub fn scale_factor_changed(&mut self, callback: G)
        requires
            old(self).wf(),
        ensures
            Self::registered_on(*old(self), WindowEventKind::ScaleFactorChanged, callback, *final(self)),
    {
        self.on(WindowEventKind::ScaleFactorChanged, callback);
    }

    /// Registers the callback that is called when the colour scheme changes.
    pub fn theme_changed(&mut self, callback: G)
        requires
            old(self).wf(),
        ensures
            Self::registered_on(*old(self), WindowEventKind::ThemeChanged, callback, *final(self)),
    {
        self.on(WindowEventKind::ThemeChanged, callback);
    }

    /// Registers the callback that is called when a finger touches the screen.
    pub fn touch(&mut self, callback: G)
        requires
            old(self).wf(),
        ensures
            Self::registered_on(*old(self), WindowEventKind::Touch, callback, *final(self)),
    {
        self.on(WindowEventKind::Touch, callback);
    }

    /// Registers the callback that is called when the touchpad is pressed.
    pub fn touchpad_pressure(&mut self, callback: G)
        requires
            old(self).wf(),
        ensures
            Self::registered_on(*old(self), WindowEventKind::TouchpadPressure, callback, *final(self)),
    {
        self.on(WindowEventKind::TouchpadPressure, callback);
    }

    /// Registers the callback for a key and a signal; the last callback
    /// registered for them is the one that is called.
    pub fn keyboard_input(&mut self, key: KeyCode, state: State, callback: C)
        requires
            old(self).wf(),
        ensures
            final(self).wf(),
            final(self).key_callback(key, state) == Some(callback),
            forall|other: KeyCode, other_state: State|
                other != key || other_state != state ==> final(self).key_callback(other, other_state)
                    == old(self).key_callback(other, other_state),
            final(self).on_event == old(self).on_event,
            final(self).keyboard_input_any == old(self).keyboard_input_any,
            final(self).mouse_input == old(self).mouse_input,
            final(self).mouse_input_any == old(self).mouse_input_any,
    {
        self.keyboard_input.insert(key.to_code() * 3 + state.index(), Some(callback));
    }

    /// Registers the callback that is called for every key and signal.
    pub fn keyboard_input_any(&mut self, callback: K)
        ensures
            final(self).keyboard_input_any == Some(callback),
            final(self).on_event == old(self).on_event,
            final(self).keyboard_input == old(self).keyboard_input,
            final(self).mouse_input == old(self).mouse_input,
            final(self).mouse_input_any == old(self).mouse_input_any,
    {
        self.keyboard_input_any = Some(callback);
    }

    /// Registers the callback for a mouse button and a signal; the last
    /// callback registered for them is the one that is called.
    pub fn mouse_input(&mut self, button: MouseButton, state: State, callback: C)
        requires
            old(self).wf(),
        ensures
            final(self).wf(),
            final(self).button_callback(button, state) == Some(callback),
            forall|other: MouseButton, other_state: State|
                other != button || other_state != state ==> final(self).button_callback(
                    other,
                    other_state,
                ) == old(self).button_callback(other, other_state),
            final(self).on_event == old(self).on_event,
            final(self).keyboard_input == old(self).keyboard_input,
            final(self).keyboard_input_any == old(self).keyboard_input_any,
            final(self).mouse_input_any == old(self).mouse_input_any,
    {
        proof {
            assert forall|other: MouseButton| other.code() == button.code() implies other == button by {
                MouseButton::code_is_injective(other, button);
            }
        }
        self.mouse_input.insert(button.to_code() * 3 + state.index(), Some(callback));
    }

    /// Registers the callback that is called for every mouse button and
    /// signal.
    pub fn mouse_input_any(&mut self, callback: M)
        ensures
            final(self).mouse_input_any == Some(callback),
            final(self).on_event == old(self).on_event,
            final(self).keyboard_input == old(self).keyboard_input,
            final(self).keyboard_input_any == old(self).keyboard_input_any,
            final(self).mouse_input == old(self).mouse_input,
    {
        self.mouse_input_any = Some(callback);
    }
}

impl<C, G, K, M> Default for WindowCallbacks<C, G, K, M> {
    fn default() -> (callbacks: Self)
        ensures
            callbacks.wf(),
            callbacks.on_event@ == Map::<u64, Option<G>>::empty(),
            callbacks.keyboard_input@ == Map::<u64, Option<C>>::empty(),
            callbacks.mouse_input@ == Map::<u64, Option<C>>::empty(),
            callbacks.keyboard_input_any is None,
            callbacks.mouse_input_any is None,
    {
        WindowCallbacks::new()
    }
}

impl<C, G, K, M> WindowCallbacks<C, G, K, M> {
    /// Calling the callbacks for `event` may turn the data `before` into
    /// `after`. An event of a key or a mouse button is sent as signals: that
    /// the input went down (if it was not held at `first`, before the event
    /// was taken in), that it is held, or that it went up. Every other event
    /// goes, with the event itself, to the callback for its kind.
    pub open spec fn reacted<D>(
        &self,
        first: DataView<D>,
        event: WindowEvent,
        before: CallbackData<D>,
        after: CallbackData<D>,
    ) -> bool where
        C: Callback<CallbackData<D>>,
        G: CallbackWith<CallbackData<D>, WindowEvent>,
        K: CallbackWith<CallbackData<D>, Signal<KeyCode>>,
        M: CallbackWith<CallbackData<D>, Signal<MouseButton>>,
     {
        match event {
            WindowEvent::MouseInput { device_id, state, button } => signals_effect(
                self.mouse_input_any,
                self.mouse_input@,
                button,
                button.code(),
                signals_of(state, !first.inputs.pressed.dom().contains(GeneralInput::MouseButton(button))),
                before,
                after,
            ),
            WindowEvent::KeyboardInput { device_id, input } => match input.virtual_keycode {
                Some(key) => signals_effect(
                    self.keyboard_input_any,
                    self.keyboard_input@,
                    key,
                    key.code(),
                    signals_of(
                        input.state,
                        !first.inputs.pressed.dom().contains(GeneralInput::KeyCode(key)),
                    ),
                    before,
                    after,
                ),
                None => after == before,
            },
            _ => match self.event_callback(WindowEventKind::of(event)) {
                Some(callback) => callback.allows_with(&event, before, after),
                None => after == before,
            },
        }
    }

    /// Takes in one event of a window and calls the callbacks for it.
    /// Inputs that go down do so at the instant `at`.
    pub fn update_at<D>(&self, data: &mut CallbackData<D>, event: &WindowEvent, at: Instant) where
        C: Callback<CallbackData<D>>,
        G: CallbackWith<CallbackData<D>, WindowEvent>,
        K: CallbackWith<CallbackData<D>, Signal<KeyCode>>,
        M: CallbackWith<CallbackData<D>, Signal<MouseButton>>,

        requires
            self.wf(),
        ensures
            exists|between: CallbackData<D>|
                between@ == taken_in(old(data)@, *event, at) && #[trigger] self.reacted(
                    old(data)@,
                    *event,
                    between,
                    *final(data),
                ),
    {
        match event {
            WindowEvent::MouseInput { device_id, state, button } => {
                let input = GeneralInput::MouseButton(*button);
                let newly_pressed = !data.pressed(input);
                if !data.save_device_inputs {
                    data.update_input_at(input, *state, at);
                }
                let ghost between = *data;
                let signals = element_state_callbacks(*state, newly_pressed);
                send_signals(&self.mouse_input_any, &self.mouse_input, *button, button.to_code(), &signals, data);
                assert(self.reacted(old(data)@, *event, between, *data));
            },
            WindowEvent::KeyboardInput { device_id, input } => {
                match input.virtual_keycode {
                    Some(key) => {
                        let held = GeneralInput::KeyCode(key);
                        let newly_pressed = !data.pressed(held);
                        if !data.save_device_inputs {
                            data.update_input_at(held, input.state, at);
                        }
                        let ghost between = *data;
                        let signals = element_state_callbacks(input.state, newly_pressed);
                        send_signals(
                            &self.keyboard_input_any,
                            &self.keyboard_input,
                            key,
                            key.to_code(),
                            &signals,
                            data,
                        );
                        assert(self.reacted(old(data)@, *event, between, *data));
                    },
                    None => {
                        assert(self.reacted(old(data)@, *event, *data, *data));
                    },
                }
            },
            _ => {
                match event {
                    WindowEvent::Focused(focused) => {
                        data.focused = *focused;
                    },
                    WindowEvent::Destroyed => {
                        data.quit.insert(Quit { bits: Quit::WINDOW_DESTROYED });
                    },
                    WindowEvent::ReceivedCharacter(codepoint) => {
                        if !data.save_device_inputs {
                            data.text.push(*codepoint);
                        }
                    },
                    WindowEvent::MouseWheel { device_id, delta, phase } => {
                        if !data.save_device_inputs {
                            data.mouse_wheel = *delta;
                        }
                    },
                    _ => {},
                }
                let ghost between = *data;
                match self.on_event.get(WindowEventKind::kind_of(event).index()) {
                    Some(callback) => {
                        callback.call_with(data, event);
                    },
                    None => {},
                }
                assert(self.reacted(old(data)@, *event, between, *data));
            },
        }
    }

    /// Takes in one event of a window, now, and calls the callbacks for it.
    pub fn update<D>(&self, data: &mut CallbackData<D>, event: &WindowEvent) where
        C: Callback<CallbackData<D>>,
        G: CallbackWith<CallbackData<D>, WindowEvent>,
        K: CallbackWith<CallbackData<D>, Signal<KeyCode>>,
        M: CallbackWith<CallbackData<D>, Signal<MouseButton>>,

        requires
            self.wf(),
        ensures
            exists|between: CallbackData<D>, at: Instant|
                #![trigger taken_in(old(data)@, *event, at), self.reacted(old(data)@, *event, between, *final(data))]
                between@ == taken_in(old(data)@, *event, at) && self.reacted(
                    old(data)@,
                    *event,
                    between,
                    *final(data),
                ),
    {
        let at = clock::now();
        self.update_at(data, event, at);
    }
}

} // verus!
