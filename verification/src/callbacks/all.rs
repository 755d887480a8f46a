//! Everything that is gathered during a step, and all callbacks.
//!
//! What belongs to a window or a device is gathered twice: once for all
//! windows (devices) together, and once for each window (device) on its
//! own. The second is made when a window (device) is first heard of.

use crate::callbacks::device::{DeviceCallbackData, DeviceCallbacks, DeviceField, DeviceView};
use crate::callbacks::general::{GeneralCallbackData, GeneralCallbacks, GeneralView};
use crate::callbacks::window::{WindowCallbackData, WindowCallbacks, WindowField, WindowView};
use crate::clock;
use crate::default_ahashmap::{Blank, DefaultAHashMap};
use crate::definitions::{GenericInput, Symbol};
use crate::dispatch::{Callback, CallbackWith};
use crate::events::{mouse_button_from_u32, mouse_button_of, DeviceEvent, DeviceId, Event, WindowEvent, WindowId};
use crate::input::{element_state_callbacks, kept_under, signal_code, signals_of, State};
use std::time::Instant;
use vstd::prelude::*;

verus! {

/// Everything that is gathered, as mathematics.
pub struct AllView {
    pub general: GeneralView,
    /// What is gathered about all windows together.
    pub window: WindowView,
    /// What is gathered about each window.
    pub windows: Map<u64, WindowView>,
    /// What is gathered about all devices together.
    pub device: DeviceView,
    /// What is gathered about each device.
    pub devices: Map<u64, DeviceView>,
}

impl AllView {
    /// Nothing gathered.
    pub open spec fn empty() -> Self {
        AllView {
            general: GeneralView::empty(),
            window: WindowView::empty(),
            windows: Map::empty(),
            device: DeviceView::empty(),
            devices: Map::empty(),
        }
    }

    /// What is gathered about one window; nothing, before the window was
    /// first heard of.
    pub open spec fn of_window(self, window: u64) -> WindowView {
        if self.windows.dom().contains(window) {
            self.windows[window]
        } else {
            WindowView::empty()
        }
    }

    /// What is gathered about one device; nothing, before the device was
    /// first heard of.
    pub open spec fn of_device(self, device: u64) -> DeviceView {
        if self.devices.dom().contains(device) {
            self.devices[device]
        } else {
            DeviceView::empty()
        }
    }

    /// What is gathered once `event` has been taken in: an event of a
    /// window goes to the windows, an event of a device to the devices, and
    /// every other event to the general part. Inputs that go down do so at
    /// the instant `at`.
    pub open spec fn apply(self, event: Event, at: Instant) -> Self {
        match event {
            Event::WindowEvent { window_id, event } => AllView {
                window: self.window.apply(event, at),
                windows: self.windows.insert(window_id.0, self.of_window(window_id.0).apply(event, at)),
                ..self
            },
            Event::DeviceEvent { device_id, event } => AllView {
                device: self.device.apply(event, at),
                devices: self.devices.insert(device_id.0, self.of_device(device_id.0).apply(event, at)),
                ..self
            },
            _ => AllView { general: self.general.apply(event), ..self },
        }
    }

    /// When a step has ended, every input that was held is still held since
    /// the same instant, for all windows together as for each window and
    /// device; nothing is reported as just pressed or just released; the
    /// modifier keys, the position and the size of a window are as they
    /// were; and the text that was typed is gone.
    pub proof fn step_boundary_keeps_what_is_held(self, window: u64, device: u64)
        ensures
            self.clear().window.inputs.inputs.pressed == self.window.inputs.inputs.pressed,
            self.clear().window.inputs.inputs.just_pressed == Set::<GenericInput>::empty(),
            self.clear().window.inputs.inputs.just_released == Set::<GenericInput>::empty(),
            self.clear().window.inputs.modifiers == self.window.inputs.modifiers,
            self.clear().window.position == self.window.position,
            self.clear().window.size == self.window.size,
            self.clear().window.text == Seq::<char>::empty(),
            self.clear().device.inputs.inputs.pressed == self.device.inputs.inputs.pressed,
            self.clear().device.text == Seq::<char>::empty(),
            self.clear().general == GeneralView::empty(),
            self.clear().windows.dom() == self.windows.dom(),
            self.clear().devices.dom() == self.devices.dom(),
            self.clear().of_window(window).inputs.inputs.pressed == self.of_window(
                window,
            ).inputs.inputs.pressed,
            self.clear().of_window(window).text == Seq::<char>::empty(),
            self.clear().of_device(device).inputs.inputs.pressed == self.of_device(
                device,
            ).inputs.inputs.pressed,
    {
    }

    /// An event of one window or device leaves what is gathered about every
    /// other window and device as it is, and makes no window or device
    /// known but its own.
    pub proof fn events_do_not_leak(self, event: Event, at: Instant, window: u64, device: u64)
        ensures
            (event matches Event::WindowEvent { window_id, .. } && window_id.0 == window) || self.apply(
                event,
                at,
            ).of_window(window) == self.of_window(window),
            (event matches Event::DeviceEvent { device_id, .. } && device_id.0 == device) || self.apply(
                event,
                at,
            ).of_device(device) == self.of_device(device),
            (event matches Event::WindowEvent { window_id, .. } && window_id.0 == window)
                || self.windows.dom().contains(window) == self.apply(event, at).windows.dom().contains(
                window,
            ),
            (event matches Event::DeviceEvent { device_id, .. } && device_id.0 == device)
                || self.devices.dom().contains(device) == self.apply(event, at).devices.dom().contains(
                device,
            ),
    {
    }

    /// The signals that a raw event of a key or a mouse button stands for,
    /// together with the input that they are about; `None` for every other
    /// event. An input goes down only if it was not held before the event:
    /// for an event of a window, held as far as the windows know, and for
    /// an event of a device, as far as the devices know.
    pub open spec fn signals(self, event: Event) -> Option<(GenericInput, Seq<State>)> {
        match event {
            Event::WindowEvent { window_id, event } => match event {
                WindowEvent::KeyboardInput { device_id, input } => match input.virtual_keycode {
                    Some(key) => Some(
                        (
                            GenericInput::KeyCode(key),
                            signals_of(
                                input.state,
                                !self.window.inputs.inputs.pressed.dom().contains(GenericInput::KeyCode(key)),
                            ),
                        ),
                    ),
                    None => None,
                },
                WindowEvent::MouseInput { device_id, state, button } => Some(
                    (
                        GenericInput::MouseButton(button),
                        signals_of(
                            state,
                            !self.window.inputs.inputs.pressed.dom().contains(
                                GenericInput::MouseButton(button),
                            ),
                        ),
                    ),
                ),
                _ => None,
            },
            Event::DeviceEvent { device_id, event } => match event {
                DeviceEvent::Key(input) => match input.virtual_keycode {
                    Some(key) => Some(
                        (
                            GenericInput::KeyCode(key),
                            signals_of(
                                input.state,
                                !self.device.inputs.inputs.pressed.dom().contains(GenericInput::KeyCode(key)),
                            ),
                        ),
                    ),
                    None => None,
                },
                DeviceEvent::Button { button, state } => Some(
                    (
                        GenericInput::MouseButton(mouse_button_of(button)),
                        signals_of(
                            state,
                            !self.device.inputs.inputs.pressed.dom().contains(
                                GenericInput::MouseButton(mouse_button_of(button)),
                            ),
                        ),
                    ),
                ),
                _ => None,
            },
            _ => None,
        }
    }

    /// What is left when a step has ended.
    pub open spec fn clear(self) -> Self {
        AllView {
            general: self.general.clear(),
            window: self.window.clear(),
            windows: self.windows.map_values(|window: WindowView| window.clear()),
            device: self.device.clear(),
            devices: self.devices.map_values(|device: DeviceView| device.clear()),
        }
    }
}

/// Everything that is gathered during a step.
pub struct CallbackData {
    pub general: GeneralCallbackData,
    pub window: WindowCallbackData,
    pub windows: DefaultAHashMap<WindowCallbackData>,
    pub device: DeviceCallbackData,
    pub devices: DefaultAHashMap<DeviceCallbackData>,
}

impl View for CallbackData {
    type V = AllView;

    open spec fn view(&self) -> AllView {
        AllView {
            general: self.general@,
            window: self.window@,
            windows: self.windows@.map_values(|window: WindowCallbackData| window@),
            device: self.device@,
            devices: self.devices@.map_values(|device: DeviceCallbackData| device@),
        }
    }
}

/// All callbacks.
pub struct Callbacks<C, A, GG, GW, GD> {
    /// Called at once for every raw event of a key or a mouse button, and
    /// shown the input and what the event means for it.
    pub input_any: Option<A>,
    /// For single inputs and signals, the callback that is called at once.
    pub input_signals: DefaultAHashMap<Option<C>>,
    pub general: GeneralCallbacks<C, GG>,
    /// Called for what is gathered about all windows together.
    pub window: WindowCallbacks<C, GW>,
    /// Called for what is gathered about single windows.
    pub windows: DefaultAHashMap<WindowCallbacks<C, GW>>,
    /// Called for what is gathered about all devices together.
    pub device: DeviceCallbacks<C, GD>,
    /// Called for what is gathered about single devices.
    pub devices: DefaultAHashMap<DeviceCallbacks<C, GD>>,
}

impl<C, A, GG, GW, GD> Callbacks<C, A, GG, GW, GD> {
    /// Every part is in order.
    pub open spec fn wf(&self) -> bool {
        &&& self.input_signals.wf()
        &&& self.input_signals.default_value() is None
        &&& self.general.wf()
        &&& self.window.wf()
        &&& self.windows.wf()
        &&& self.windows.default_value().wf()
        &&& forall|window: u64| self.windows@.dom().contains(window) ==> #[trigger] self.windows@[window].wf()
        &&& self.device.wf()
        &&& self.devices.wf()
        &&& self.devices.default_value().wf()
        &&& forall|device: u64| self.devices@.dom().contains(device) ==> #[trigger] self.devices@[device].wf()
    }

    /// No callback at all.
    pub fn empty() -> (callbacks: Self)
        ensures
            callbacks.wf(),
            callbacks.input_any is None,
            callbacks.input_signals@ == Map::<u64, Option<C>>::empty(),
            callbacks.general.fields@ == Map::<u64, Option<GG>>::empty(),
            callbacks.general.redraw_requested_with_key@ == Map::<u64, Option<C>>::empty(),
            callbacks.window.is_blank(),
            callbacks.windows@ == Map::<u64, WindowCallbacks<C, GW>>::empty(),
            callbacks.device.is_blank(),
            callbacks.devices@ == Map::<u64, DeviceCallbacks<C, GD>>::empty(),
    {
        Callbacks {
            input_any: None,
            input_signals: DefaultAHashMap::new(),
            general: GeneralCallbacks::new(),
            window: WindowCallbacks::new(),
            windows: DefaultAHashMap::new(),
            device: DeviceCallbacks::new(),
            devices: DefaultAHashMap::new(),
        }
    }

    /// The callback that is called at once for an input and a signal, if
    /// there is one.
    pub open spec fn signal_callback(&self, input: GenericInput, state: State) -> Option<C> {
        kept_under(self.input_signals@, signal_code(input.code(), state))
    }

    /// Registers the callback that is called at once when a raw event
    /// stands for `state` of `input`; the last callback registered for them
    /// is the one that is called.
    pub fn on_input(&mut self, input: GenericInput, state: State, callback: C)
        requires
            old(self).wf(),
        ensures
            final(self).wf(),
            final(self).signal_callback(input, state) == Some(callback),
            forall|other: GenericInput, other_state: State|
                other != input || other_state != state ==> final(self).signal_callback(other, other_state)
                    == old(self).signal_callback(other, other_state),
            final(self).input_any == old(self).input_any,
            final(self).general == old(self).general,
            final(self).window == old(self).window,
            final(self).windows == old(self).windows,
            final(self).device == old(self).device,
            final(self).devices == old(self).devices,
    {
        proof {
            assert forall|other: GenericInput| other.code() == input.code() implies other == input by {
                GenericInput::code_is_injective(other, input);
            }
        }
        self.input_signals.insert(input.to_code() * 3 + state.index(), Some(callback));
    }

    /// Registers a callback for a field of one window.
    pub fn on_window(&mut self, window: WindowId, field: WindowField, callback: GW) -> (previous: Option<GW>)
        requires
            old(self).wf(),
        ensures
            final(self).wf(),
            final(self).windows@.dom() == old(self).windows@.dom().insert(window.0),
            final(self).windows@[window.0].callback_for(field) == Some(callback),
            forall|other: u64|
                other != window.0 && old(self).windows@.dom().contains(other) ==> final(self).windows@[other] == old(self).windows@[other],
            final(self).general == old(self).general,
            final(self).window == old(self).window,
            final(self).device == old(self).device,
            final(self).devices == old(self).devices,
    {
        let shard = self.windows.get_mut(window.0);
        shard.on(field, callback)
    }

    /// Registers a callback for a field of one device.
    pub fn on_device(&mut self, device: DeviceId, field: DeviceField, callback: GD) -> (previous: Option<GD>)
        requires
            old(self).wf(),
        ensures
            final(self).wf(),
            final(self).devices@.dom() == old(self).devices@.dom().insert(device.0),
            final(self).devices@[device.0].callback_for(field) == Some(callback),
            forall|other: u64|
                other != device.0 && old(self).devices@.dom().contains(other) ==> final(self).devices@[other] == old(self).devices@[other],
            final(self).general == old(self).general,
            final(self).window == old(self).window,
            final(self).windows == old(self).windows,
            final(self).device == old(self).device,
    {
        let shard = self.devices.get_mut(device.0);
        shard.on(field, callback)
    }
}

impl<C, A, GG, GW, GD> Default for Callbacks<C, A, GG, GW, GD> {
    fn default() -> (callbacks: Self)
        ensures
            callbacks.wf(),
            callbacks.input_any is None,
            callbacks.input_signals@ == Map::<u64, Option<C>>::empty(),
            callbacks.general.fields@ == Map::<u64, Option<GG>>::empty(),
            callbacks.general.redraw_requested_with_key@ == Map::<u64, Option<C>>::empty(),
            callbacks.window.is_blank(),
            callbacks.windows@ == Map::<u64, WindowCallbacks<C, GW>>::empty(),
            callbacks.device.is_blank(),
            callbacks.devices@ == Map::<u64, DeviceCallbacks<C, GD>>::empty(),
    {
        Callbacks::empty()
    }
}

/// Calling the callbacks that are due for one window may turn the state
/// `before` into `after`. A window for which no callbacks are registered is
/// passed over.
pub open spec fn window_dispatched<D, C: Callback<D>, GW: CallbackWith<D, WindowCallbackData>>(
    window: u64,
    gathered: Map<u64, WindowCallbackData>,
    callbacks: Map<u64, WindowCallbacks<C, GW>>,
    before: D,
    after: D,
) -> bool {
    if callbacks.dom().contains(window) {
        gathered[window].dispatched(&callbacks[window], before, after)
    } else {
        after == before
    }
}

/// Calling, window after window in the order of `order`, the callbacks that
/// are due for the window may turn the state `before` into `after`.
pub open spec fn windows_dispatched<D, C: Callback<D>, GW: CallbackWith<D, WindowCallbackData>>(
    order: Seq<u64>,
    gathered: Map<u64, WindowCallbackData>,
    callbacks: Map<u64, WindowCallbacks<C, GW>>,
    before: D,
    after: D,
) -> bool
    decreases order.len(),
{
    if order.len() == 0 {
        after == before
    } else {
        exists|between: D|
            windows_dispatched(order.drop_last(), gathered, callbacks, before, between)
                && #[trigger] window_dispatched(order.last(), gathered, callbacks, between, after)
    }
}

/// Calling the callbacks that are due for one device may turn the state
/// `before` into `after`. A device for which no callbacks are registered is
/// passed over.
pub open spec fn device_dispatched<D, C: Callback<D>, GD: CallbackWith<D, DeviceCallbackData>>(
    device: u64,
    gathered: Map<u64, DeviceCallbackData>,
    callbacks: Map<u64, DeviceCallbacks<C, GD>>,
    before: D,
    after: D,
) -> bool {
    if callbacks.dom().contains(device) {
        gathered[device].dispatched(&callbacks[device], before, after)
    } else {
        after == before
    }
}

/// Calling, device after device in the order of `order`, the callbacks that
/// are due for the device may turn the state `before` into `after`.
pub open spec fn devices_dispatched<D, C: Callback<D>, GD: CallbackWith<D, DeviceCallbackData>>(
    order: Seq<u64>,
    gathered: Map<u64, DeviceCallbackData>,
    callbacks: Map<u64, DeviceCallbacks<C, GD>>,
    before: D,
    after: D,
) -> bool
    decreases order.len(),
{
    if order.len() == 0 {
        after == before
    } else {
        exists|between: D|
            devices_dispatched(order.drop_last(), gathered, callbacks, before, between)
                && #[trigger] device_dispatched(order.last(), gathered, callbacks, between, after)
    }
}

/// One more window at the end of a run of windows.
pub proof fn windows_dispatched_extend<D, C: Callback<D>, GW: CallbackWith<D, WindowCallbackData>>(
    order: Seq<u64>,
    next: u64,
    gathered: Map<u64, WindowCallbackData>,
    callbacks: Map<u64, WindowCallbacks<C, GW>>,
    before: D,
    between: D,
    after: D,
)
    requires
        windows_dispatched(order, gathered, callbacks, before, between),
        window_dispatched(next, gathered, callbacks, between, after),
    ensures
        windows_dispatched(order.push(next), gathered, callbacks, before, after),
{
    assert(order.push(next).drop_last() =~= order);
    assert(order.push(next).last() == next);
}

/// One more device at the end of a run of devices.
pub proof fn devices_dispatched_extend<D, C: Callback<D>, GD: CallbackWith<D, DeviceCallbackData>>(
    order: Seq<u64>,
    next: u64,
    gathered: Map<u64, DeviceCallbackData>,
    callbacks: Map<u64, DeviceCallbacks<C, GD>>,
    before: D,
    between: D,
    after: D,
)
    requires
        devices_dispatched(order, gathered, callbacks, before, between),
        device_dispatched(next, gathered, callbacks, between, after),
    ensures
        devices_dispatched(order.push(next), gathered, callbacks, before, after),
{
    assert(order.push(next).drop_last() =~= order);
    assert(order.push(next).last() == next);
}

impl Clone for CallbackData {
    /// A second buffer that holds what this one holds, with the windows and
    /// devices in the same order.
    fn clone(&self) -> (copy: Self)
        ensures
            self.wf() ==> copy.wf() && copy@ == self@,
            copy.windows.order() == self.windows.order(),
            copy.devices.order() == self.devices.order(),
    {
        let copy = CallbackData {
            general: self.general.clone(),
            window: self.window.clone(),
            windows: self.windows.clone(),
            device: self.device.clone(),
            devices: self.devices.clone(),
        };
        proof {
            if self.wf() {
                assert(copy@.windows =~= self@.windows);
                assert(copy@.devices =~= self@.devices);
            }
        }
        copy
    }
}

impl Default for CallbackData {
    fn default() -> (data: Self)
        ensures
            data.wf(),
            data@ == AllView::empty(),
            data.windows.order() == Seq::<u64>::empty(),
            data.devices.order() == Seq::<u64>::empty(),
    {
        let data = CallbackData {
            general: GeneralCallbackData::default(),
            window: WindowCallbackData::default(),
            windows: DefaultAHashMap::new(),
            device: DeviceCallbackData::default(),
            devices: DefaultAHashMap::new(),
        };
        assert(data@.windows =~= Map::<u64, WindowView>::empty());
        assert(data@.devices =~= Map::<u64, DeviceView>::empty());
        data
    }
}

impl CallbackData {
    /// Every part is in order, and what is read for an unknown window or
    /// device is blank.
    pub open spec fn wf(&self) -> bool {
        &&& self.window.wf()
        &&& self.windows.wf()
        &&& self.windows.default_value().is_blank()
        &&& forall|window: u64| self.windows@.dom().contains(window) ==> #[trigger] self.windows@[window].wf()
        &&& self.devices.wf()
        &&& self.devices.default_value().is_blank()
    }

    /// What is gathered about one window. A window that has not been heard
    /// of is answered with nothing gathered.
    pub fn of_window(&self, window: WindowId) -> (gathered: &WindowCallbackData)
        requires
            self.wf(),
        ensures
            gathered@ == self@.of_window(window.0),
            gathered.wf(),
    {
        self.windows.get(window.0)
    }

    /// What is gathered about one device. A device that has not been heard
    /// of is answered with nothing gathered.
    pub fn of_device(&self, device: DeviceId) -> (gathered: &DeviceCallbackData)
        requires
            self.wf(),
        ensures
            gathered@ == self@.of_device(device.0),
    {
        self.devices.get(device.0)
    }

    /// The signals that a raw event of a key or a mouse button stands for,
    /// together with the input that they are about.
    pub fn signals(&self, event: &Event) -> (signalled: Option<(GenericInput, Vec<State>)>)
        ensures
            match signalled {
                Some((input, signals)) => self@.signals(*event) == Some((input, signals@)),
                None => self@.signals(*event) is None,
            },
    {
        match event {
            Event::WindowEvent { window_id, event } => match event {
                WindowEvent::KeyboardInput { device_id, input } => match input.virtual_keycode {
                    Some(key) => {
                        let held = GenericInput::KeyCode(key);
                        Some((held, element_state_callbacks(input.state, !self.window.inputs.pressed(held))))
                    },
                    None => None,
                },
                WindowEvent::MouseInput { device_id, state, button } => {
                    let held = GenericInput::MouseButton(*button);
                    Some((held, element_state_callbacks(*state, !self.window.inputs.pressed(held))))
                },
                _ => None,
            },
            Event::DeviceEvent { device_id, event } => match event {
                DeviceEvent::Key(input) => match input.virtual_keycode {
                    Some(key) => {
                        let held = GenericInput::KeyCode(key);
                        Some((held, element_state_callbacks(input.state, !self.device.inputs.pressed(held))))
                    },
                    None => None,
                },
                DeviceEvent::Button { button, state } => {
                    let held = GenericInput::MouseButton(mouse_button_from_u32(*button));
                    Some((held, element_state_callbacks(*state, !self.device.inputs.pressed(held))))
                },
                _ => None,
            },
            _ => None,
        }
    }

    /// Takes in one event. Inputs that go down do so at the instant `at`.
    pub fn update_at(&mut self, event: &Event, at: Instant)
        requires
            old(self).wf(),
        ensures
            final(self).wf(),
            final(self)@ == old(self)@.apply(*event, at),
    {
        match event {
            Event::WindowEvent { window_id, event } => {
                self.window.update_at(event, at);
                let shard = self.windows.get_mut(window_id.0);
                shard.update_at(event, at);
                proof {
                    assert(self@.windows =~= old(self)@.windows.insert(
                        window_id.0,
                        old(self)@.of_window(window_id.0).apply(*event, at),
                    ));
                }
            },
            Event::DeviceEvent { device_id, event } => {
                self.device.update_at(event, at);
                let shard = self.devices.get_mut(device_id.0);
                shard.update_at(event, at);
                proof {
                    assert(self@.devices =~= old(self)@.devices.insert(
                        device_id.0,
                        old(self)@.of_device(device_id.0).apply(*event, at),
                    ));
                }
            },
            _ => {
                self.general.update(event);
            },
        }
    }

    /// Takes in one event, now.
    pub fn update(&mut self, event: &Event)
        requires
            old(self).wf(),
        ensures
            final(self).wf(),
            exists|at: Instant| final(self)@ == old(self)@.apply(*event, at),
    {
        let at = clock::now();
        self.update_at(event, at);
    }

    /// Ends a step: every part forgets what lasts one step only.
    pub fn clear(&mut self)
        requires
            old(self).wf(),
        ensures
            final(self).wf(),
            final(self)@ == old(self)@.clear(),
            final(self).windows.order() == old(self).windows.order(),
            final(self).devices.order() == old(self).devices.order(),
    {
        self.general.clear();
        self.window.clear();
        self.device.clear();
        let windows = self.windows.len();
        let mut i: usize = 0;
        while i < windows
            invariant
                i <= windows,
                windows == self.windows.order().len(),
                self.wf(),
                self.windows.order() == old(self).windows.order(),
                self.windows@.dom() == old(self).windows@.dom(),
                self.general@ == old(self)@.general.clear(),
                self.window@ == old(self)@.window.clear(),
                self.device@ == old(self)@.device.clear(),
                self.devices == old(self).devices,
                forall|j: int|
                    0 <= j < i ==> (#[trigger] self.windows@[self.windows.order()[j]])@ == old(self).windows@[self.windows.order()[j]]@.clear(),
                forall|j: int|
                    i <= j < windows ==> #[trigger] self.windows@[self.windows.order()[j]] == old(self).windows@[self.windows.order()[j]],
            decreases windows - i,
        {
            proof {
                self.windows.order_lists_the_domain();
            }
            let ghost before = self.windows;
            let ghost window = self.windows.order()[i as int];
            let shard = self.windows.value_at_mut(i);
            shard.clear();
            proof {
                assert(self.windows@.dom() =~= before@.dom());
                assert forall|j: int| 0 <= j < windows && j != i implies #[trigger] self.windows@[self.windows.order()[j]]
                    == before@[self.windows.order()[j]] by {
                    assert(self.windows.order()[j] != window);
                }
            }
            i += 1;
        }
        let devices = self.devices.len();
        let mut k: usize = 0;
        let ghost cleared = self.windows;
        while k < devices
            invariant
                k <= devices,
                devices == self.devices.order().len(),
                self.wf(),
                self.windows == cleared,
                self.devices.order() == old(self).devices.order(),
                self.devices@.dom() == old(self).devices@.dom(),
                self.general@ == old(self)@.general.clear(),
                self.window@ == old(self)@.window.clear(),
                self.device@ == old(self)@.device.clear(),
                forall|j: int|
                    0 <= j < k ==> (#[trigger] self.devices@[self.devices.order()[j]])@ == old(self).devices@[self.devices.order()[j]]@.clear(),
                forall|j: int|
                    k <= j < devices ==> #[trigger] self.devices@[self.devices.order()[j]] == old(self).devices@[self.devices.order()[j]],
            decreases devices - k,
        {
            proof {
                self.devices.order_lists_the_domain();
            }
            let ghost before = self.devices;
            let ghost device = self.devices.order()[k as int];
            let shard = self.devices.value_at_mut(k);
            shard.clear();
            proof {
                assert(self.devices@.dom() =~= before@.dom());
                assert forall|j: int| 0 <= j < devices && j != k implies #[trigger] self.devices@[self.devices.order()[j]]
                    == before@[self.devices.order()[j]] by {
                    assert(self.devices.order()[j] != device);
                }
            }
            k += 1;
        }
        proof {
            self.windows.order_lists_the_domain();
            self.devices.order_lists_the_domain();
            assert forall|window: u64| old(self).windows@.dom().contains(window) implies (
            #[trigger] self.windows@[window])@ == old(self).windows@[window]@.clear() by {
                assert(self.windows.order().to_set().contains(window));
                let j = choose|j: int|
                    0 <= j < self.windows.order().len() && self.windows.order()[j] == window;
                assert(self.windows@[self.windows.order()[j]]@ == old(self).windows@[self.windows.order()[j]]@.clear());
            }
            assert forall|device: u64| old(self).devices@.dom().contains(device) implies (
            #[trigger] self.devices@[device])@ == old(self).devices@[device]@.clear() by {
                assert(self.devices.order().to_set().contains(device));
                let j = choose|j: int|
                    0 <= j < self.devices.order().len() && self.devices.order()[j] == device;
                assert(self.devices@[self.devices.order()[j]]@ == old(self).devices@[self.devices.order()[j]]@.clear());
            }
            assert(self@.windows =~= old(self)@.clear().windows);
            assert(self@.devices =~= old(self)@.clear().devices);
        }
    }

    /// Calling all callbacks that are due may turn the state `before` into
    /// `after`: first the general ones, then those for all windows together,
    /// then those for single windows, then those for all devices together,
    /// then those for single devices.
    pub open spec fn dispatched<
        D,
        C: Callback<D>,
        GG: CallbackWith<D, GeneralCallbackData>,
        GW: CallbackWith<D, WindowCallbackData>,
        GD: CallbackWith<D, DeviceCallbackData>,
        A,
    >(&self, callbacks: &Callbacks<C, A, GG, GW, GD>, before: D, after: D) -> bool {
        exists|first: D, second: D, third: D, fourth: D|
            #![trigger
                self.general.dispatched(&callbacks.general, before, first),
                self.window.dispatched(&callbacks.window, first, second),
                self.device.dispatched(&callbacks.device, third, fourth)]
            self.general.dispatched(&callbacks.general, before, first) && self.window.dispatched(
                &callbacks.window,
                first,
                second,
            ) && windows_dispatched(self.windows.order(), self.windows@, callbacks.windows@, second, third)
                && self.device.dispatched(&callbacks.device, third, fourth) && devices_dispatched(
                self.devices.order(),
                self.devices@,
                callbacks.devices@,
                fourth,
                after,
            )
    }

    /// Calls all callbacks that are due.
    pub fn call_callbacks<
        D,
        C: Callback<D>,
        GG: CallbackWith<D, GeneralCallbackData>,
        GW: CallbackWith<D, WindowCallbackData>,
        GD: CallbackWith<D, DeviceCallbackData>,
        A,
    >(&self, state: &mut D, callbacks: &Callbacks<C, A, GG, GW, GD>)
        requires
            self.wf(),
            callbacks.wf(),
        ensures
            self.dispatched(callbacks, *old(state), *final(state)),
    {
        let ghost start = *state;
        self.general.call_callbacks(state, &callbacks.general);
        let ghost first = *state;
        self.window.call_callbacks(state, &callbacks.window);
        let ghost second = *state;
        let windows = self.windows.len();
        let mut i: usize = 0;
        while i < windows
            invariant
                i <= windows,
                windows == self.windows.order().len(),
                self.wf(),
                callbacks.wf(),
                windows_dispatched(
                    self.windows.order().take(i as int),
                    self.windows@,
                    callbacks.windows@,
                    second,
                    *state,
                ),
            decreases windows - i,
        {
            let ghost between = *state;
            assert(self.windows.order().take(i + 1).drop_last() =~= self.windows.order().take(i as int));
            let window = self.windows.key_at(i);
            assert(self.windows.order().take(i + 1).last() == window);
            if callbacks.windows.contains_key(window) {
                let gathered = self.windows.value_at(i);
                gathered.call_callbacks(state, callbacks.windows.get(window));
                assert(self.windows@[window].dispatched(&callbacks.windows@[window], between, *state));
            }
            proof {
                windows_dispatched_extend(
                    self.windows.order().take(i as int),
                    window,
                    self.windows@,
                    callbacks.windows@,
                    second,
                    between,
                    *state,
                );
                assert(self.windows.order().take(i as int).push(window) =~= self.windows.order().take(
                    i + 1,
                ));
            }
            i += 1;
        }
        assert(self.windows.order().take(i as int) =~= self.windows.order());
        let ghost third = *state;
        self.device.call_callbacks(state, &callbacks.device);
        let ghost fourth = *state;
        let devices = self.devices.len();
        let mut k: usize = 0;
        while k < devices
            invariant
                k <= devices,
                devices == self.devices.order().len(),
                self.wf(),
                callbacks.wf(),
                devices_dispatched(
                    self.devices.order().take(k as int),
                    self.devices@,
                    callbacks.devices@,
                    fourth,
                    *state,
                ),
            decreases devices - k,
        {
            let ghost between = *state;
            assert(self.devices.order().take(k + 1).drop_last() =~= self.devices.order().take(k as int));
            let device = self.devices.key_at(k);
            assert(self.devices.order().take(k + 1).last() == device);
            if callbacks.devices.contains_key(device) {
                let gathered = self.devices.value_at(k);
                gathered.call_callbacks(state, callbacks.devices.get(device));
                assert(self.devices@[device].dispatched(&callbacks.devices@[device], between, *state));
            }
            proof {
                devices_dispatched_extend(
                    self.devices.order().take(k as int),
                    device,
                    self.devices@,
                    callbacks.devices@,
                    fourth,
                    between,
                    *state,
                );
                assert(self.devices.order().take(k as int).push(device) =~= self.devices.order().take(
                    k + 1,
                ));
            }
            k += 1;
        }
        assert(self.devices.order().take(k as int) =~= self.devices.order());
        assert(self.general.dispatched(&callbacks.general, start, first));
        assert(self.window.dispatched(&callbacks.window, first, second));
        assert(self.device.dispatched(&callbacks.device, third, fourth));
    }
}

} // verus!
