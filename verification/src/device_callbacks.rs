//! Callbacks that are called as soon as an event of a device is taken in.

use crate::callback_data::{CallbackData, DataView};
use crate::clock;
use crate::default_ahashmap::DefaultAHashMap;
use crate::definitions::{ButtonId, KeyCode, Symbol};
use crate::dispatch::{Callback, CallbackWith};
use crate::events::{mouse_button_from_u32, mouse_button_of, DeviceEvent};
use crate::input::{
    element_state_callbacks, kept_under, send_signals, signal_code, signals_effect, signals_of,
    GeneralInput, Signal, State,
};
use std::time::Instant;
use vstd::prelude::*;

verus! {

/// The kinds of events of a device.
#[derive(Clone, Copy, Debug, PartialEq, Eq, Hash, Structural)]
pub enum DeviceEventKind {
    Added,
    Removed,
    MouseMotion,
    MouseWheel,
    Motion,
    Button,
    Key,
    Text,
}

impl DeviceEventKind {
    /// The kind of an event.
    pub open spec fn of(event: DeviceEvent) -> DeviceEventKind {
        match event {
            DeviceEvent::Added => DeviceEventKind::Added,
            DeviceEvent::Removed => DeviceEventKind::Removed,
            DeviceEvent::MouseMotion { .. } => DeviceEventKind::MouseMotion,
            DeviceEvent::MouseWheel { .. } => DeviceEventKind::MouseWheel,
            DeviceEvent::Motion { .. } => DeviceEventKind::Motion,
            DeviceEvent::Button { .. } => DeviceEventKind::Button,
            DeviceEvent::Key(..) => DeviceEventKind::Key,
            DeviceEvent::Text { .. } => DeviceEventKind::Text,
        }
    }

    /// The number under which the callback for the kind is kept.
    pub open spec fn index_of(self) -> u64 {
        match self {
            DeviceEventKind::Added => 0,
            DeviceEventKind::Removed => 1,
            DeviceEventKind::MouseMotion => 2,
            DeviceEventKind::MouseWheel => 3,
            DeviceEventKind::Motion => 4,
            DeviceEventKind::Button => 5,
            DeviceEventKind::Key => 6,
            DeviceEventKind::Text => 7,
        }
    }

    /// Different kinds are kept under different numbers.
    pub proof fn numbers_are_distinct(self, other: DeviceEventKind)
        ensures
            self.index_of() == other.index_of() ==> self == other,
    {
    }

    /// Tells the kind of an event.
    pub fn kind_of(event: &DeviceEvent) -> (kind: DeviceEventKind)
        ensures
            kind == Self::of(*event),
    {
        match event {
            DeviceEvent::Added => DeviceEventKind::Added,
            DeviceEvent::Removed => DeviceEventKind::Removed,
            DeviceEvent::MouseMotion { .. } => DeviceEventKind::MouseMotion,
            DeviceEvent::MouseWheel { .. } => DeviceEventKind::MouseWheel,
            DeviceEvent::Motion { .. } => DeviceEventKind::Motion,
            DeviceEvent::Button { .. } => DeviceEventKind::Button,
            DeviceEvent::Key(..) => DeviceEventKind::Key,
            DeviceEvent::Text { .. } => DeviceEventKind::Text,
        }
    }

    /// Computes the number under which the callback for the kind is kept.
    pub fn index(self) -> (index: u64)
        ensures
            index == self.index_of(),
    {
        match self {
            DeviceEventKind::Added => 0,
            DeviceEventKind::Removed => 1,
            DeviceEventKind::MouseMotion => 2,
            DeviceEventKind::MouseWheel => 3,
            DeviceEventKind::Motion => 4,
            DeviceEventKind::Button => 5,
            DeviceEventKind::Key => 6,
            DeviceEventKind::Text => 7,
        }
    }
}

/// What the data holds once an event of a device has been taken in, before
/// any callback is called. Inputs and text are taken from the event only if
/// they are to be taken from the events of devices. Inputs that go down do
/// so at the instant `at`.
pub open spec fn taken_in<D>(data: DataView<D>, event: DeviceEvent, at: Instant) -> DataView<D> {
    match event {
        DeviceEvent::Key(input) => match input.virtual_keycode {
            Some(key) => if data.save_device_inputs {
                data.input(GeneralInput::KeyCode(key), input.state, at)
            } else {
                data
            },
            None => data,
        },
        DeviceEvent::Button { button, state } => if data.save_device_inputs {
            data.input(GeneralInput::MouseButton(mouse_button_of(button)), state, at)
        } else {
            data
        },
        DeviceEvent::Text { codepoint } => if data.save_device_inputs {
            DataView { text: data.text.push(codepoint), ..data }
        } else {
            data
        },
        _ => data,
    }
}

/// The callbacks for the events of a device.
pub struct DeviceCallbacks<C, G, K, B> {
    /// For each kind of event but those of keys and buttons, the callback
    /// that is called with the event.
    pub on_event: DefaultAHashMap<Option<G>>,
    /// For single buttons and signals, the callback that is called.
    pub button: DefaultAHashMap<Option<C>>,
    /// The callback that is called for every button and signal.
    pub button_any: Option<B>,
    /// For single keys and signals, the callback that is called.
    pub key: DefaultAHashMap<Option<C>>,
    /// The callback that is called for every key and signal.
    pub key_any: Option<K>,
}

impl<C, G, K, B> DeviceCallbacks<C, G, K, B> {
    /// The maps are in order, and where no callback is registered there is
    /// none.
    pub open spec fn wf(&self) -> bool {
        &&& self.on_event.wf()
        &&& self.on_event.default_value() is None
        &&& self.button.wf()
        &&& self.button.default_value() is None
        &&& self.key.wf()
        &&& self.key.default_value() is None
    }

    /// The callback for a key and a signal, if there is one.
    pub open spec fn key_callback(&self, key: KeyCode, state: State) -> Option<C> {
        kept_under(self.key@, signal_code(key.code(), state))
    }

    /// The callback for a button and a signal, if there is one.
    pub open spec fn button_callback(&self, button: ButtonId, state: State) -> Option<C> {
        kept_under(self.button@, signal_code(button as u64, state))
    }

    /// The callback for a kind of event, if there is one.
    pub open spec fn event_callback(&self, kind: DeviceEventKind) -> Option<G> {
        kept_under(self.on_event@, kind.index_of())
    }

    /// What registering `callback` for a kind of event does: the kind has
    /// this callback afterwards, and nothing else changes.
    pub open spec fn registered_on(before: Self, kind: DeviceEventKind, callback: G, after: Self) -> bool {
        &&& after.wf()
        &&& after.event_callback(kind) == Some(callback)
        &&& forall|other: DeviceEventKind|
            other != kind ==> after.event_callback(other) == before.event_callback(other)
        &&& after.button == before.button
        &&& after.button_any == before.button_any
        &&& after.key == before.key
        &&& after.key_any == before.key_any
    }

    /// No callback at all.
    pub fn new() -> (callbacks: Self)
        ensures
            callbacks.wf(),
            callbacks.on_event@ == Map::<u64, Option<G>>::empty(),
            callbacks.button@ == Map::<u64, Option<C>>::empty(),
            callbacks.key@ == Map::<u64, Option<C>>::empty(),
            callbacks.button_any is None,
            callbacks.key_any is None,
    {
        DeviceCallbacks {
            on_event: DefaultAHashMap::new(),
            button: DefaultAHashMap::new(),
            button_any: None,
            key: DefaultAHashMap::new(),
            key_any: None,
        }
    }

    /// Registers the callback for a kind of event; the last callback
    /// registered for a kind is the one that is called.
    pub fn on(&mut self, kind: DeviceEventKind, callback: G)
        requires
            old(self).wf(),
        ensures
            final(self).wf(),
            final(self).event_callback(kind) == Some(callback),
            forall|other: DeviceEventKind|
                other != kind ==> final(self).event_callback(other) == old(self).event_callback(other),
            final(self).button == old(self).button,
            final(self).button_any == old(self).button_any,
            final(self).key == old(self).key,
            final(self).key_any == old(self).key_any,
    {
        proof {
            assert forall|other: DeviceEventKind| other != kind implies other.index_of()
                != kind.index_of() by {
                other.numbers_are_distinct(kind);
            }
        }
        self.on_event.insert(kind.index(), Some(callback));
    }

    /// Registers the callback that is called when a device is plugged in.
    pub fn added(&mut self, callback: G)
        requires
            old(self).wf(),
        ensures
            Self::registered_on(*old(self), DeviceEventKind::Added, callback, *final(self)),
    {
        self.on(DeviceEventKind::Added, callback);
    }

    /// Registers the callback that is called when an axis of the device moves.
    pub fn motion(&mut self, callback: G)
        requires
            old(self).wf(),
        ensures
            Self::registered_on(*old(self), DeviceEventKind::Motion, callback, *final(self)),
    {
        self.on(DeviceEventKind::Motion, callback);
    }

    /// Registers the callback that is called when the mouse moves.
    pub fn mouse_motion(&mut self, callback: G)
        requires
            old(self).wf(),
        ensures
            Self::registered_on(*old(self), DeviceEventKind::MouseMotion, callback, *final(self)),
    {
        self.on(DeviceEventKind::MouseMotion, callback);
    }

    /// Registers the callback that is called when the mouse wheel turns.
    pub fn mouse_wheel(&mut self, callback: G)
        requires
            old(self).wf(),
        ensures
            Self::registered_on(*old(self), DeviceEventKind::MouseWheel, callback, *final(self)),
    {
        self.on(DeviceEventKind::MouseWheel, callback);
    }

    /// Registers the callback that is called when a device is unplugged.
    pub fn removed(&mut self, callback: G)
        requires
            old(self).wf(),
        ensures
            Self::registered_on(*old(self), DeviceEventKind::Removed, callback, *final(self)),
    {
        self.on(DeviceEventKind::Removed, callback);
    }

    /// Registers the callback that is called when a character is typed.
    pub fn text(&mut self, callback: G)
        requires
            old(self).wf(),
        ensures
            Self::registered_on(*old(self), DeviceEventKind::Text, callback, *final(self)),
    {
        self.on(DeviceEventKind::Text, callback);
    }

    /// Registers the callback for a button and a signal; the last callback
    /// registered for them is the one that is called.
    pub fn button(&mut self, button: ButtonId, state: State, callback: C)
        requires
            old(self).wf(),
        ensures
            final(self).wf(),
            final(self).button_callback(button, state) == Some(callback),
            forall|other: ButtonId, other_state: State|
                other != button || other_state != state ==> final(self).button_callback(
                    other,
                    other_state,
                ) == old(self).button_callback(other, other_state),
            final(self).on_event == old(self).on_event,
            final(self).button_any == old(self).button_any,
            final(self).key == old(self).key,
            final(self).key_any == old(self).key_any,
    {
        self.button.insert(button as u64 * 3 + state.index(), Some(callback));
    }

    /// Registers the callback that is called for every button and signal.
    pub fn button_any(&mut self, callback: B)
        ensures
            final(self).button_any == Some(callback),
            final(self).on_event == old(self).on_event,
            final(self).button == old(self).button,
            final(self).key == old(self).key,
            final(self).key_any == old(self).key_any,
    {
        self.button_any = Some(callback);
    }

    /// Registers the callback for a key and a signal; the last callback
    /// registered for them is the one that is called.
    pub fn key(&mut self, key: KeyCode, state: State, callback: C)
        requires
            old(self).wf(),
        ensures
            final(self).wf(),
            final(self).key_callback(key, state) == Some(callback),
            forall|other: KeyCode, other_state: State|
                other != key || other_state != state ==> final(self).key_callback(other, other_state)
                    == old(self).key_callback(other, other_state),
            final(self).on_event == old(self).on_event,
            final(self).button == old(self).button,
            final(self).button_any == old(self).button_any,
            final(self).key_any == old(self).key_any,
    {
        self.key.insert(key.to_code() * 3 + state.index(), Some(callback));
    }

    /// Registers the callback that is called for every key and signal.
    pub fn key_any(&mut self, callback: K)
        ensures
            final(self).key_any == Some(callback),
            final(self).on_event == old(self).on_event,
            final(self).button == old(self).button,
            final(self).button_any == old(self).button_any,
            final(self).key == old(self).key,
    {
        self.key_any = Some(callback);
    }
}

impl<C, G, K, B> Default for DeviceCallbacks<C, G, K, B> {
    fn default() -> (callbacks: Self)
        ensures
            callbacks.wf(),
            callbacks.on_event@ == Map::<u64, Option<G>>::empty(),
            callbacks.button@ == Map::<u64, Option<C>>::empty(),
            callbacks.key@ == Map::<u64, Option<C>>::empty(),
            callbacks.button_any is None,
            callbacks.key_any is None,
    {
        DeviceCallbacks::new()
    }
}

impl<C, G, K, B> DeviceCallbacks<C, G, K, B> {
    /// Calling the callbacks for `event` may turn the data `before` into
    /// `after`. An event of a key or a button is sent as signals: that the
    /// input went down (if it was not held at `first`, before the event was
    /// taken in), that it is held, or that it went up. Every other event
    /// goes, with the event itself, to the callback for its kind.
    pub open spec fn reacted<D>(
        &self,
        first: DataView<D>,
        event: DeviceEvent,
        before: CallbackData<D>,
        after: CallbackData<D>,
    ) -> bool where
        C: Callback<CallbackData<D>>,
        G: CallbackWith<CallbackData<D>, DeviceEvent>,
        K: CallbackWith<CallbackData<D>, Signal<KeyCode>>,
        B: CallbackWith<CallbackData<D>, Signal<ButtonId>>,
     {
        match event {
            DeviceEvent::Button { button, state } => signals_effect(
                self.button_any,
                self.button@,
                button,
                button as u64,
                signals_of(
                    state,
                    !first.inputs.pressed.dom().contains(GeneralInput::MouseButton(mouse_button_of(button))),
                ),
                before,
                after,
            ),
            DeviceEvent::Key(input) => match input.virtual_keycode {
                Some(key) => signals_effect(
                    self.key_any,
                    self.key@,
                    key,
                    key.code(),
                    signals_of(
                        input.state,
                        !first.inputs.pressed.dom().contains(GeneralInput::KeyCode(key)),
                    ),
                    before,
                    after,
                ),
                None => after == before,
            },
            _ => match self.event_callback(DeviceEventKind::of(event)) {
                Some(callback) => callback.allows_with(&event, before, after),
                None => after == before,
            },
        }
    }

    /// Takes in one event of a device and calls the callbacks for it.
    /// Inputs that go down do so at the instant `at`.
    pub fn update_at<D>(&self, data: &mut CallbackData<D>, event: &DeviceEvent, at: Instant) where
        C: Callback<CallbackData<D>>,
        G: CallbackWith<CallbackData<D>, DeviceEvent>,
        K: CallbackWith<CallbackData<D>, Signal<KeyCode>>,
        B: CallbackWith<CallbackData<D>, Signal<ButtonId>>,

        requires
            self.wf(),
        ensures
            exists|between: CallbackData<D>|
                between@ == taken_in(old(data)@, *event, at) && #[trigger] self.reacted(
                    old(data)@,
                    *event,
                    between,
                    *final(data),
                ),
    {
        match event {
            DeviceEvent::Button { button, state } => {
                let input = GeneralInput::MouseButton(mouse_button_from_u32(*button));
                let newly_pressed = !data.pressed(input);
                if data.save_device_inputs {
                    data.update_input_at(input, *state, at);
                }
                let ghost between = *data;
                let signals = element_state_callbacks(*state, newly_pressed);
                send_signals(&self.button_any, &self.button, *button, *button as u64, &signals, data);
                assert(self.reacted(old(data)@, *event, between, *data));
            },
            DeviceEvent::Key(input) => {
                match input.virtual_keycode {
                    Some(key) => {
                        let held = GeneralInput::KeyCode(key);
                        let newly_pressed = !data.pressed(held);
                        if data.save_device_inputs {
                            data.update_input_at(held, input.state, at);
                        }
                        let ghost between = *data;
                        let signals = element_state_callbacks(input.state, newly_pressed);
                        send_signals(&self.key_any, &self.key, key, key.to_code(), &signals, data);
                        assert(self.reacted(old(data)@, *event, between, *data));
                    },
                    None => {
                        assert(self.reacted(old(data)@, *event, *data, *data));
                    },
                }
            },
            _ => {
                match event {
                    DeviceEvent::Text { codepoint } => {
                        if data.save_device_inputs {
                            data.text.push(*codepoint);
                        }
                    },
                    _ => {},
                }
                let ghost between = *data;
                match self.on_event.get(DeviceEventKind::kind_of(event).index()) {
                    Some(callback) => {
                        callback.call_with(data, event);
                    },
                    None => {},
                }
                assert(self.reacted(old(data)@, *event, between, *data));
            },
        }
    }

    /// Takes in one event of a device, now, and calls the callbacks for it.
    pub fn update<D>(&self, data: &mut CallbackData<D>, event: &DeviceEvent) where
        C: Callback<CallbackData<D>>,
        G: CallbackWith<CallbackData<D>, DeviceEvent>,
        K: CallbackWith<CallbackData<D>, Signal<KeyCode>>,
        B: CallbackWith<CallbackData<D>, Signal<ButtonId>>,

        requires
            self.wf(),
        ensures
            exists|between: CallbackData<D>, at: Instant|
                #![trigger taken_in(old(data)@, *event, at), self.reacted(old(data)@, *event, between, *final(data))]
                between@ == taken_in(old(data)@, *event, at) && self.reacted(
                    old(data)@,
                    *event,
                    between,
                    *final(data),
                ),
    {
        let at = clock::now();
        self.update_at(data, event, at);
    }
}

} // verus!
