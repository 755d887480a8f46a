//! A small helper that keeps track of the keys and mouse buttons that are
//! down and forwards each event to the callback registered for it.

use crate::default_ahashmap::DefaultAHashMap;
use crate::definitions::{ElementState, KeyCode, MouseButton, Symbol};
use crate::device_callbacks::DeviceEventKind;
use crate::dispatch::{Callback, CallbackWith};
use crate::events::{DeviceEvent, Event, WindowEvent};
use crate::input::{kept_under, symbols_of};
use crate::tables::{
    members, members_contains, members_insert, members_list, members_new, members_remove,
};
use crate::window_callbacks::WindowEventKind;
use ahash::AHashSet;
use vstd::prelude::*;

verus! {

/// What a callback for any key or any mouse button is shown: the input, and
/// whether it went down or up.
pub struct Toggled<T> {
    pub input: T,
    pub state: ElementState,
}

/// The number under which the callback for an input and a direction is
/// kept, given the number of the input.
pub open spec fn toggle_code(input_code: u64, state: ElementState) -> u64 {
    match state {
        ElementState::Pressed => (input_code * 2) as u64,
        ElementState::Released => (input_code * 2 + 1) as u64,
    }
}

/// Computes the number under which the callback for an input and a
/// direction is kept.
fn toggle_number(input_code: u64, state: ElementState) -> (code: u64)
    requires
        input_code <= 0xffff_ffff_ffff,
    ensures
        code == toggle_code(input_code, state),
{
    match state {
        ElementState::Pressed => input_code * 2,
        ElementState::Released => input_code * 2 + 1,
    }
}

/// The inputs that are down once an input has gone down or up.
pub open spec fn toggled<T>(held: Set<T>, input: T, state: ElementState) -> Set<T> {
    match state {
        ElementState::Pressed => held.insert(input),
        ElementState::Released => held.remove(input),
    }
}

/// Calling a callback, if there is one, with `seen` may turn the state
/// `before` into `after`.
pub open spec fn shown<D, S, G: CallbackWith<D, S>>(callback: Option<G>, seen: S, before: D, after: D) -> bool {
    match callback {
        Some(callback) => callback.allows_with(&seen, before, after),
        None => after == before,
    }
}

/// Calling a callback, if there is one, may turn the state `before` into
/// `after`.
pub open spec fn called<D, C: Callback<D>>(callback: Option<C>, before: D, after: D) -> bool {
    match callback {
        Some(callback) => callback.allows(before, after),
        None => after == before,
    }
}

/// Holds the application's state, the keys and mouse buttons that are down,
/// and the callbacks.
pub struct EventHelper<D, C, GW, GD, K, M> {
    /// The application's state, which the callbacks work on.
    pub data: D,
    keys_held: AHashSet<u64>,
    mouse_inputs_held: AHashSet<u64>,
    suspended: Option<C>,
    resumed: Option<C>,
    on_window: DefaultAHashMap<Option<GW>>,
    on_device: DefaultAHashMap<Option<GD>>,
    mouse_inputs: DefaultAHashMap<Option<C>>,
    mouse_input_any: Option<M>,
    keys: DefaultAHashMap<Option<C>>,
    key_any: Option<K>,
}

/// The callbacks of a helper, as mathematics.
pub struct Registered<C, GW, GD, K, M> {
    pub suspended: Option<C>,
    pub resumed: Option<C>,
    /// By kind of event of a window.
    pub on_window: Map<u64, Option<GW>>,
    /// By kind of event of a device.
    pub on_device: Map<u64, Option<GD>>,
    /// By mouse button and direction.
    pub mouse_inputs: Map<u64, Option<C>>,
    pub mouse_input_any: Option<M>,
    /// By key and direction.
    pub keys: Map<u64, Option<C>>,
    pub key_any: Option<K>,
}

impl<D, C, GW, GD, K, M> EventHelper<D, C, GW, GD, K, M> {
    /// The application's state.
    pub closed spec fn state(&self) -> D {
        self.data
    }

    /// The keys that are down.
    pub closed spec fn keys_down(&self) -> Set<KeyCode> {
        Set::new(|key: KeyCode| members(self.keys_held).contains(key.code()))
    }

    /// The mouse buttons that are down.
    pub closed spec fn buttons_down(&self) -> Set<MouseButton> {
        Set::new(|button: MouseButton| members(self.mouse_inputs_held).contains(button.code()))
    }

    /// The callbacks.
    pub closed spec fn registered(&self) -> Registered<C, GW, GD, K, M> {
        Registered {
            suspended: self.suspended,
            resumed: self.resumed,
            on_window: self.on_window@,
            on_device: self.on_device@,
            mouse_inputs: self.mouse_inputs@,
            mouse_input_any: self.mouse_input_any,
            keys: self.keys@,
            key_any: self.key_any,
        }
    }

    /// The maps of callbacks are in order.
    pub closed spec fn wf(&self) -> bool {
        &&& self.on_window.wf()
        &&& self.on_window.default_value() is None
        &&& self.on_device.wf()
        &&& self.on_device.default_value() is None
        &&& self.mouse_inputs.wf()
        &&& self.mouse_inputs.default_value() is None
        &&& self.keys.wf()
        &&& self.keys.default_value() is None
    }

    /// A helper with nothing down and no callback.
    pub fn new(data: D) -> (helper: Self)
        ensures
            helper.wf(),
            helper.state() == data,
            helper.keys_down() == Set::<KeyCode>::empty(),
            helper.buttons_down() == Set::<MouseButton>::empty(),
            helper.registered() == (Registered::<C, GW, GD, K, M> {
                suspended: None,
                resumed: None,
                on_window: Map::empty(),
                on_device: Map::empty(),
                mouse_inputs: Map::empty(),
                mouse_input_any: None,
                keys: Map::empty(),
                key_any: None,
            }),
    {
        let helper = EventHelper {
            data,
            keys_held: members_new(),
            mouse_inputs_held: members_new(),
            suspended: None,
            resumed: None,
            on_window: DefaultAHashMap::new(),
            on_device: DefaultAHashMap::new(),
            mouse_inputs: DefaultAHashMap::new(),
            mouse_input_any: None,
            keys: DefaultAHashMap::new(),
            key_any: None,
        };
        assert(helper.keys_down() =~= Set::<KeyCode>::empty());
        assert(helper.buttons_down() =~= Set::<MouseButton>::empty());
        helper
    }

    /// Whether the key is down.
    pub fn key_held(&self, key: KeyCode) -> (down: bool)
        ensures
            down == self.keys_down().contains(key),
    {
        members_contains(&self.keys_held, key.to_code())
    }

    /// Whether the mouse button is down.
    pub fn mouse_input_held(&self, button: MouseButton) -> (down: bool)
        ensures
            down == self.buttons_down().contains(button),
    {
        members_contains(&self.mouse_inputs_held, button.to_code())
    }

    /// The keys that are down, each once, in no particular order.
    pub fn keys_held(&self) -> (down: Vec<KeyCode>)
        ensures
            down@.no_duplicates(),
            down@.to_set() == self.keys_down(),
    {
        let down = symbols_of(members_list(&self.keys_held));
        assert(down@.to_set() =~= self.keys_down());
        down
    }

    /// The mouse buttons that are down, each once, in no particular order.
    pub fn mouse_inputs_held(&self) -> (down: Vec<MouseButton>)
        ensures
            down@.no_duplicates(),
            down@.to_set() == self.buttons_down(),
    {
        let down = symbols_of(members_list(&self.mouse_inputs_held));
        assert(down@.to_set() =~= self.buttons_down());
        down
    }

    /// Registers the callback for a mouse button going down or up; the last
    /// callback registered for them is the one that is called.
    pub fn mouse_input(&mut self, button: MouseButton, state: ElementState, callback: C)
        requires
            old(self).wf(),
        ensures
            final(self).wf(),
            final(self).registered() == (Registered {
                mouse_inputs: old(self).registered().mouse_inputs.insert(
                    toggle_code(button.code(), state),
                    Some(callback),
                ),
                ..old(self).registered()
            }),
            final(self).state() == old(self).state(),
            final(self).keys_down() == old(self).keys_down(),
            final(self).buttons_down() == old(self).buttons_down(),
    {
        self.mouse_inputs.insert(toggle_number(button.to_code(), state), Some(callback));
    }

    /// Registers the callback for a key going down or up; the last callback
    /// registered for them is the one that is called.
    pub fn keyboard(&mut self, key: KeyCode, state: ElementState, callback: C)
        requires
            old(self).wf(),
        ensures
            final(self).wf(),
            final(self).registered() == (Registered {
                keys: old(self).registered().keys.insert(toggle_code(key.code(), state), Some(callback)),
                ..old(self).registered()
            }),
            final(self).state() == old(self).state(),
            final(self).keys_down() == old(self).keys_down(),
            final(self).buttons_down() == old(self).buttons_down(),
    {
        self.keys.insert(toggle_number(key.to_code(), state), Some(callback));
    }

    /// Registers the callback that is called for every key that goes down
    /// or up.
    pub fn keyboard_any(&mut self, callback: K)
        ensures
            final(self).wf() == old(self).wf(),
            final(self).registered() == (Registered { key_any: Some(callback), ..old(self).registered() }),
            final(self).state() == old(self).state(),
            final(self).keys_down() == old(self).keys_down(),
            final(self).buttons_down() == old(self).buttons_down(),
    {
        self.key_any = Some(callback);
    }

    /// Registers the callback that is called for every mouse button that
    /// goes down or up.
    pub fn mouse_input_any(&mut self, callback: M)
        ensures
            final(self).wf() == old(self).wf(),
            final(self).registered() == (Registered {
                mouse_input_any: Some(callback),
                ..old(self).registered()
            }),
            final(self).state() == old(self).state(),
            final(self).keys_down() == old(self).keys_down(),
            final(self).buttons_down() == old(self).buttons_down(),
    {
        self.mouse_input_any = Some(callback);
    }

    /// Registers the callback that is called when the application is
    /// suspended.
    pub fn suspended(&mut self, callback: C)
        ensures
            final(self).wf() == old(self).wf(),
            final(self).registered() == (Registered { suspended: Some(callback), ..old(self).registered() }),
            final(self).state() == old(self).state(),
            final(self).keys_down() == old(self).keys_down(),
            final(self).buttons_down() == old(self).buttons_down(),
    {
        self.suspended = Some(callback);
    }

    /// Registers the callback that is called when the application is
    /// resumed.
    pub fn resumed(&mut self, callback: C)
        ensures
            final(self).wf() == old(self).wf(),
            final(self).registered() == (Registered { resumed: Some(callback), ..old(self).registered() }),
            final(self).state() == old(self).state(),
            final(self).keys_down() == old(self).keys_down(),
            final(self).buttons_down() == old(self).buttons_down(),
    {
        self.resumed = Some(callback);
    }

    /// Registers the callback for a kind of event of a window; the last
    /// callback registered for the kind is the one that is called.
    pub fn on_window(&mut self, kind: WindowEventKind, callback: GW)
        requires
            old(self).wf(),
        ensures
            final(self).wf(),
            final(self).registered() == (Registered {
                on_window: old(self).registered().on_window.insert(kind.index_of(), Some(callback)),
                ..old(self).registered()
            }),
            final(self).state() == old(self).state(),
            final(self).keys_down() == old(self).keys_down(),
            final(self).buttons_down() == old(self).buttons_down(),
    {
        self.on_window.insert(kind.index(), Some(callback));
    }

    /// Registers the callback for a kind of event of a device; the last
    /// callback registered for the kind is the one that is called.
    pub fn on_device(&mut self, kind: DeviceEventKind, callback: GD)
        requires
            old(self).wf(),
        ensures
            final(self).wf(),
            final(self).registered() == (Registered {
                on_device: old(self).registered().on_device.insert(kind.index_of(), Some(callback)),
                ..old(self).registered()
            }),
            final(self).state() == old(self).state(),
            final(self).keys_down() == old(self).keys_down(),
            final(self).buttons_down() == old(self).buttons_down(),
    {
        self.on_device.insert(kind.index(), Some(callback));
    }

    /// Registers the callback that is called when the cursor enters the window.
    pub fn cursor_entered(&mut self, callback: GW)
        requires
            old(self).wf(),
        ensures
            final(self).wf(),
            final(self).registered() == (Registered {
                on_window: old(self).registered().on_window.insert(WindowEventKind::CursorEntered.index_of(), Some(callback)),
                ..old(self).registered()
            }),
            final(self).state() == old(self).state(),
            final(self).keys_down() == old(self).keys_down(),
            final(self).buttons_down() == old(self).buttons_down(),
    {
        self.on_window(WindowEventKind::CursorEntered, callback);
    }

    /// Registers the callback that is called when the cursor leaves the window.
    pub fn cursor_left(&mut self, callback: GW)
        requires
            old(self).wf(),
        ensures
            final(self).wf(),
            final(self).registered() == (Registered {
                on_window: old(self).registered().on_window.insert(WindowEventKind::CursorLeft.index_of(), Some(callback)),
                ..old(self).registered()
            }),
            final(self).state() == old(self).state(),
            final(self).keys_down() == old(self).keys_down(),
            final(self).buttons_down() == old(self).buttons_down(),
    {
        self.on_window(WindowEventKind::CursorLeft, callback);
    }

    /// Registers the callback that is called when the window is asked to close.
    pub fn close_requested(&mut self, callback: GW)
        requires
            old(self).wf(),
        ensures
            final(self).wf(),
            final(self).registered() == (Registered {
                on_window: old(self).registered().on_window.insert(WindowEventKind::CloseRequested.index_of(), Some(callback)),
                ..old(self).registered()
            }),
            final(self).state() == old(self).state(),
            final(self).keys_down() == old(self).keys_down(),
            final(self).buttons_down() == old(self).buttons_down(),
    {
        self.on_window(WindowEventKind::CloseRequested, callback);
    }

    /// Registers the callback that is called when the cursor moves.
    pub fn cursor_moved(&mut self, callback: GW)
        requires
            old(self).wf(),
        ensures
            final(self).wf(),
            final(self).registered() == (Registered {
                on_window: old(self).registered().on_window.insert(WindowEventKind::CursorMoved.index_of(), Some(callback)),
                ..old(self).registered()
            }),
            final(self).state() == old(self).state(),
            final(self).keys_down() == old(self).keys_down(),
            final(self).buttons_down() == old(self).buttons_down(),
    {
        self.on_window(WindowEventKind::CursorMoved, callback);
    }

    /// Registers the callback that is called when the window changes its size.
    pub fn resized(&mut self, callback: GW)
        requires
            old(self).wf(),
        ensures
            final(self).wf(),
            final(self).registered() == (Registered {
                on_window: old(self).registered().on_window.insert(WindowEventKind::Resized.index_of(), Some(callback)),
                ..old(self).registered()
            }),
            final(self).state() == old(self).state(),
            final(self).keys_down() == old(self).keys_down(),
            final(self).buttons_down() == old(self).buttons_down(),
    {
        self.on_window(WindowEventKind::Resized, callback);
    }

    /// Registers the callback that is called when the window moves.
    pub fn moved(&mut self, callback: GW)
        requires
            old(self).wf(),
        ensures
            final(self).wf(),
            final(self).registered() == (Registered {
                on_window: old(self).registered().on_window.insert(WindowEventKind::Moved.index_of(), Some(callback)),
                ..old(self).registered()
            }),
            final(self).state() == old(self).state(),
            final(self).keys_down() == old(self).keys_down(),
            final(self).buttons_down() == old(self).buttons_down(),
    {
        self.on_window(WindowEventKind::Moved, callback);
    }

    /// Registers the callback that is called when the window gains or loses the focus.
    pub fn focused(&mut self, callback: GW)
        requires
            old(self).wf(),
        ensures
            final(self).wf(),
            final(self).registered() == (Registered {
                on_window: old(self).registered().on_window.insert(WindowEventKind::Focused.index_of(), Some(callback)),
                ..old(self).registered()
            }),
            final(self).state() == old(self).state(),
            final(self).keys_down() == old(self).keys_down(),
            final(self).buttons_down() == old(self).buttons_down(),
    {
        self.on_window(WindowEventKind::Focused, callback);
    }

    /// Registers the callback that is called when the mouse moves.
    pub fn raw_mouse_delta(&mut self, callback: GD)
        requires
            old(self).wf(),
        ensures
            final(self).wf(),
            final(self).registered() == (Registered {
                on_device: old(self).registered().on_device.insert(DeviceEventKind::MouseMotion.index_of(), Some(callback)),
                ..old(self).registered()
            }),
            final(self).state() == old(self).state(),
            final(self).keys_down() == old(self).keys_down(),
            final(self).buttons_down() == old(self).buttons_down(),
    {
        self.on_device(DeviceEventKind::MouseMotion, callback);
    }

    /// Registers the callback that is called when the mouse wheel turns.
    pub fn raw_mouse_scroll(&mut self, callback: GD)
        requires
            old(self).wf(),
        ensures
            final(self).wf(),
            final(self).registered() == (Registered {
                on_device: old(self).registered().on_device.insert(DeviceEventKind::MouseWheel.index_of(), Some(callback)),
                ..old(self).registered()
            }),
            final(self).state() == old(self).state(),
            final(self).keys_down() == old(self).keys_down(),
            final(self).buttons_down() == old(self).buttons_down(),
    {
        self.on_device(DeviceEventKind::MouseWheel, callback);
    }
}

impl<D, C: Callback<D>, GW: CallbackWith<D, WindowEvent>, GD: CallbackWith<D, DeviceEvent>, K: CallbackWith<
    D,
    Toggled<KeyCode>,
>, M: CallbackWith<D, Toggled<MouseButton>>> EventHelper<D, C, GW, GD, K, M> {
    /// Taking in an event of a window turns the helper `before` into
    /// `after`. A mouse button that goes down or up is noted, shown to the
    /// callback for any mouse button, and then the callback for this button
    /// and direction is called. Every other event is shown to the callback
    /// for its kind.
    pub open spec fn window_event_done(before: Self, event: WindowEvent, after: Self) -> bool {
        &&& after.registered() == before.registered()
        &&& after.keys_down() == before.keys_down()
        &&& match event {
            WindowEvent::MouseInput { device_id, state, button } => {
                &&& after.buttons_down() == toggled(before.buttons_down(), button, state)
                &&& exists|between: D| #[trigger]
                    shown(
                        before.registered().mouse_input_any,
                        Toggled { input: button, state },
                        before.state(),
                        between,
                    ) && called(
                        kept_under(before.registered().mouse_inputs, toggle_code(button.code(), state)),
                        between,
                        after.state(),
                    )
            },
            _ => {
                &&& after.buttons_down() == before.buttons_down()
                &&& shown(
                    kept_under(before.registered().on_window, WindowEventKind::of(event).index_of()),
                    event,
                    before.state(),
                    after.state(),
                )
            },
        }
    }

    /// Taking in an event of a device turns the helper `before` into
    /// `after`. A key that goes down or up is shown to the callback for any
    /// key, noted, and then the callback for this key and direction is
    /// called; a key without a meaning is passed over. Every other event is
    /// shown to the callback for its kind.
    pub open spec fn device_event_done(before: Self, event: DeviceEvent, after: Self) -> bool {
        &&& after.registered() == before.registered()
        &&& after.buttons_down() == before.buttons_down()
        &&& match event {
            DeviceEvent::Key(input) => match input.virtual_keycode {
                Some(key) => {
                    &&& after.keys_down() == toggled(before.keys_down(), key, input.state)
                    &&& exists|between: D| #[trigger]
                        shown(
                            before.registered().key_any,
                            Toggled { input: key, state: input.state },
                            before.state(),
                            between,
                        ) && called(
                            kept_under(before.registered().keys, toggle_code(key.code(), input.state)),
                            between,
                            after.state(),
                        )
                },
                None => after.keys_down() == before.keys_down() && after.state() == before.state(),
            },
            _ => {
                &&& after.keys_down() == before.keys_down()
                &&& shown(
                    kept_under(before.registered().on_device, DeviceEventKind::of(event).index_of()),
                    event,
                    before.state(),
                    after.state(),
                )
            },
        }
    }

    /// Taking in an event turns the helper `before` into `after`.
    pub open spec fn event_done(before: Self, event: Event, after: Self) -> bool {
        match event {
            Event::WindowEvent { window_id, event } => Self::window_event_done(before, event, after),
            Event::DeviceEvent { device_id, event } => Self::device_event_done(before, event, after),
            Event::Suspended => {
                &&& after.registered() == before.registered()
                &&& after.keys_down() == before.keys_down()
                &&& after.buttons_down() == before.buttons_down()
                &&& called(before.registered().suspended, before.state(), after.state())
            },
            Event::Resumed => {
                &&& after.registered() == before.registered()
                &&& after.keys_down() == before.keys_down()
                &&& after.buttons_down() == before.buttons_down()
                &&& called(before.registered().resumed, before.state(), after.state())
            },
            _ => {
                &&& after.registered() == before.registered()
                &&& after.keys_down() == before.keys_down()
                &&& after.buttons_down() == before.buttons_down()
                &&& after.state() == before.state()
            },
        }
    }

    /// Takes in one event of a window.
    pub fn update_window_event(&mut self, event: &WindowEvent)
        requires
            old(self).wf(),
        ensures
            final(self).wf(),
            Self::window_event_done(*old(self), *event, *final(self)),
    {
        match event {
            WindowEvent::MouseInput { device_id, state, button } => {
                let code = button.to_code();
                match state {
                    ElementState::Pressed => {
                        members_insert(&mut self.mouse_inputs_held, code);
                    },
                    ElementState::Released => {
                        members_remove(&mut self.mouse_inputs_held, code);
                    },
                }
                proof {
                    assert forall|other: MouseButton| other.code() == code implies other == *button by {
                        MouseButton::code_is_injective(other, *button);
                    }
                    assert(self.buttons_down() =~= toggled(old(self).buttons_down(), *button, *state));
                }
                match &self.mouse_input_any {
                    Some(callback) => {
                        callback.call_with(&mut self.data, &Toggled { input: *button, state: *state });
                    },
                    None => {},
                }
                let ghost between = self.data;
                match self.mouse_inputs.get(toggle_number(code, *state)) {
                    Some(callback) => {
                        callback.call(&mut self.data);
                    },
                    None => {},
                }
                assert(shown(
                    old(self).registered().mouse_input_any,
                    Toggled { input: *button, state: *state },
                    old(self).state(),
                    between,
                ));
            },
            _ => {
                match self.on_window.get(WindowEventKind::kind_of(event).index()) {
                    Some(callback) => {
                        callback.call_with(&mut self.data, event);
                    },
                    None => {},
                }
            },
        }
    }

    /// Takes in one event of a device.
    pub fn update_device_event(&mut self, event: &DeviceEvent)
        requires
            old(self).wf(),
        ensures
            final(self).wf(),
            Self::device_event_done(*old(self), *event, *final(self)),
    {
        match event {
            DeviceEvent::Key(input) => {
                match input.virtual_keycode {
                    Some(key) => {
                        match &self.key_any {
                            Some(callback) => {
                                callback.call_with(
                                    &mut self.data,
                                    &Toggled { input: key, state: input.state },
                                );
                            },
                            None => {},
                        }
                        let ghost between = self.data;
                        let code = key.to_code();
                        match input.state {
                            ElementState::Pressed => {
                                members_insert(&mut self.keys_held, code);
                            },
                            ElementState::Released => {
                                members_remove(&mut self.keys_held, code);
                            },
                        }
                        proof {
                            assert(self.keys_down() =~= toggled(old(self).keys_down(), key, input.state));
                        }
                        match self.keys.get(toggle_number(code, input.state)) {
                            Some(callback) => {
                                callback.call(&mut self.data);
                            },
                            None => {},
                        }
                        assert(shown(
                            old(self).registered().key_any,
                            Toggled { input: key, state: input.state },
                            old(self).state(),
                            between,
                        ));
                    },
                    None => {},
                }
            },
            _ => {
                match self.on_device.get(DeviceEventKind::kind_of(event).index()) {
                    Some(callback) => {
                        callback.call_with(&mut self.data, event);
                    },
                    None => {},
                }
            },
        }
    }

    /// Takes in one event. Tells whether the event ended a step.
    pub fn update(&mut self, event: &Event) -> (completed: bool)
        requires
            old(self).wf(),
        ensures
            final(self).wf(),
            completed == event.is_step_boundary(),
            Self::event_done(*old(self), *event, *final(self)),
    {
        match event {
            Event::WindowEvent { window_id, event } => {
                self.update_window_event(event);
                false
            },
            Event::DeviceEvent { device_id, event } => {
                self.update_device_event(event);
                false
            },
            Event::Suspended => {
                match &self.suspended {
                    Some(callback) => {
                        callback.call(&mut self.data);
                    },
                    None => {},
                }
                false
            },
            Event::Resumed => {
                match &self.resumed {
                    Some(callback) => {
                        callback.call(&mut self.data);
                    },
                    None => {},
                }
                false
            },
            Event::MainEventsCleared => true,
            _ => false,
        }
    }
}

} // verus!
