//! Callbacks, and what is gathered for them.
//!
//! `Callbacks` is the immediate dispatcher: it calls the callbacks for an
//! event as soon as the event is taken in. The modules below gather events
//! over a step and call back at the end of the step.

use crate::callback_data::CallbackData;
use crate::definitions::{ButtonId, KeyCode, MouseButton};
use crate::device_callbacks::DeviceCallbacks;
use crate::dispatch::{Callback, CallbackWith};
use crate::events::{DeviceEvent, Event, WindowEvent};
use crate::general_callbacks::GeneralCallbacks;
use crate::input::Signal;
use crate::window_callbacks::WindowCallbacks;
use std::time::Instant;
use vstd::prelude::*;

pub mod all;
pub mod by_text;
pub mod device;
pub mod general;
pub mod window;
pub mod window_device;

verus! {

/// All callbacks that are called as soon as an event is taken in.
pub struct Callbacks<C, GG, GD, GW, K, M, B> {
    pub general: GeneralCallbacks<GG>,
    pub device: DeviceCallbacks<C, GD, K, B>,
    pub window: WindowCallbacks<C, GW, K, M>,
}

impl<C, GG, GD, GW, K, M, B> Default for Callbacks<C, GG, GD, GW, K, M, B> {
    fn default() -> (callbacks: Self)
        ensures
            callbacks.wf(),
            callbacks.general.on_event@ == Map::<u64, Option<GG>>::empty(),
            callbacks.device.on_event@ == Map::<u64, Option<GD>>::empty(),
            callbacks.device.button@ == Map::<u64, Option<C>>::empty(),
            callbacks.device.key@ == Map::<u64, Option<C>>::empty(),
            callbacks.device.button_any is None,
            callbacks.device.key_any is None,
            callbacks.window.on_event@ == Map::<u64, Option<GW>>::empty(),
            callbacks.window.keyboard_input@ == Map::<u64, Option<C>>::empty(),
            callbacks.window.mouse_input@ == Map::<u64, Option<C>>::empty(),
            callbacks.window.keyboard_input_any is None,
            callbacks.window.mouse_input_any is None,
    {
        Callbacks {
            general: GeneralCallbacks::new(),
            device: DeviceCallbacks::new(),
            window: WindowCallbacks::new(),
        }
    }
}

impl<C, GG, GD, GW, K, M, B> Callbacks<C, GG, GD, GW, K, M, B> {
    /// Every part is in order.
    pub open spec fn wf(&self) -> bool {
        self.general.wf() && self.device.wf() && self.window.wf()
    }

    /// Taking in `event` at the instant `at` and calling the callbacks for
    /// it may turn the data `before` into `after`: the event is first taken
    /// in by the part that it belongs to, and then that part's callbacks
    /// for it are called. The end of a step changes nothing and calls
    /// nothing.
    pub open spec fn handled<D>(
        &self,
        event: Event,
        at: Instant,
        before: CallbackData<D>,
        after: CallbackData<D>,
    ) -> bool where
        C: Callback<CallbackData<D>>,
        GG: CallbackWith<CallbackData<D>, Event>,
        GD: CallbackWith<CallbackData<D>, DeviceEvent>,
        GW: CallbackWith<CallbackData<D>, WindowEvent>,
        K: CallbackWith<CallbackData<D>, Signal<KeyCode>>,
        M: CallbackWith<CallbackData<D>, Signal<MouseButton>>,
        B: CallbackWith<CallbackData<D>, Signal<ButtonId>>,
     {
        match event {
            Event::DeviceEvent { device_id, event } => exists|between: CallbackData<D>|
                between@ == crate::device_callbacks::taken_in(before@, event, at)
                    && #[trigger] self.device.reacted(before@, event, between, after),
            Event::WindowEvent { window_id, event } => exists|between: CallbackData<D>|
                between@ == crate::window_callbacks::taken_in(before@, event, at)
                    && #[trigger] self.window.reacted(before@, event, between, after),
            Event::MainEventsCleared => after == before,
            _ => exists|between: CallbackData<D>|
                between@ == crate::general_callbacks::taken_in(before@, event)
                    && #[trigger] self.general.reacted(event, between, after),
        }
    }

    /// Takes in one event at the instant `at` and calls the callbacks for
    /// it. Tells whether the event ended a step.
    pub fn update_at<D>(&self, data: &mut CallbackData<D>, event: &Event, at: Instant) -> (completed: bool) where
        C: Callback<CallbackData<D>>,
        GG: CallbackWith<CallbackData<D>, Event>,
        GD: CallbackWith<CallbackData<D>, DeviceEvent>,
        GW: CallbackWith<CallbackData<D>, WindowEvent>,
        K: CallbackWith<CallbackData<D>, Signal<KeyCode>>,
        M: CallbackWith<CallbackData<D>, Signal<MouseButton>>,
        B: CallbackWith<CallbackData<D>, Signal<ButtonId>>,

        requires
            self.wf(),
        ensures
            completed == event.is_step_boundary(),
            self.handled(*event, at, *old(data), *final(data)),
    {
        match event {
            Event::DeviceEvent { device_id, event } => {
                self.device.update_at(data, event, at);
                false
            },
            Event::WindowEvent { window_id, event } => {
                self.window.update_at(data, event, at);
                false
            },
            Event::MainEventsCleared => true,
            _ => {
                self.general.update(data, event);
                false
            },
        }
    }

    /// Takes in one event, at the reading of the clock that the call takes,
    /// and calls the callbacks for it. Tells whether the event ended a
    /// step.
    pub fn update<D>(&self, data: &mut CallbackData<D>, event: &Event) -> (completed: bool) where
        C: Callback<CallbackData<D>>,
        GG: CallbackWith<CallbackData<D>, Event>,
        GD: CallbackWith<CallbackData<D>, DeviceEvent>,
        GW: CallbackWith<CallbackData<D>, WindowEvent>,
        K: CallbackWith<CallbackData<D>, Signal<KeyCode>>,
        M: CallbackWith<CallbackData<D>, Signal<MouseButton>>,
        B: CallbackWith<CallbackData<D>, Signal<ButtonId>>,

        requires
            self.wf(),
        ensures
            completed == event.is_step_boundary(),
            exists|at: Instant| #[trigger] self.handled(*event, at, *old(data), *final(data)),
    {
        let at = crate::clock::now();
        self.update_at(data, event, at)
    }
}

} // verus!
