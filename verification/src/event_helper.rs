//! The step dispatcher: takes raw events one at a time, gathers them, and
//! at the end of each step calls the callbacks that are due.

use crate::callbacks::all::{AllView, CallbackData, Callbacks};
use crate::callbacks::device::DeviceCallbackData;
use crate::callbacks::general::GeneralCallbackData;
use crate::callbacks::window::{counted_once_more, WindowCallbackData};
use crate::clock;
use crate::clock::span;
use crate::default_ahashmap::copied;
use crate::definitions::{GenericInput, Quit, Symbol};
use crate::dispatch::{call_all, effects, Callback, CallbackWith};
use crate::events::{Event, WindowEvent};
use crate::input::{send_signals, signals_effect, Signal};
use std::time::Duration;
use std::time::Instant;
use vstd::prelude::*;

verus! {

/// The reasons to quit after `event`, given the reasons before it: the end
/// of the event loop and the destruction of a window are reasons to quit,
/// and a reason once noted stays.
pub open spec fn quit_after(quit: Quit, event: Event) -> Quit {
    match event {
        Event::LoopDestroyed => Quit { bits: quit.bits | Quit::LOOP_DESTROYED },
        Event::WindowEvent { window_id, event: WindowEvent::Destroyed } => Quit {
            bits: quit.bits | Quit::WINDOW_DESTROYED,
        },
        _ => quit,
    }
}

/// Holds the application's state and what is gathered during a step, and
/// dispatches to callbacks.
///
/// Between two step boundaries the helper gathers; the only callbacks that
/// it calls then are those for the signals of keys and mouse buttons, which
/// are sent at once, event by event. At a step boundary it first calls the
/// callbacks that were put off until then (in the order in which they were
/// put off), then the callbacks that are due for what has been gathered,
/// and then forgets what lasts one step only.
pub struct EventHelper<D, C> {
    user_data: D,
    data: CallbackData,
    call_after: Vec<C>,
    previous_step: Instant,
    latest_step: Instant,
    start: Instant,
    update_count: usize,
    quit: Quit,
}

impl<D, C> EventHelper<D, C> {
    /// The application's state, which the callbacks work on.
    pub closed spec fn state(&self) -> D {
        self.user_data
    }

    /// What has been gathered since the last step boundary.
    pub closed spec fn gathering(&self) -> CallbackData {
        self.data
    }

    /// The callbacks that are put off until the next step boundary, in the
    /// order in which they were put off.
    pub closed spec fn deferred(&self) -> Seq<C> {
        self.call_after@
    }

    /// The number of steps that have ended.
    pub closed spec fn steps(&self) -> usize {
        self.update_count
    }

    /// The reasons to quit that have been noted.
    pub closed spec fn quit_flags(&self) -> Quit {
        self.quit
    }

    /// The instant at which the helper was made.
    pub closed spec fn started_at(&self) -> Instant {
        self.start
    }

    /// The instant of the last step boundary; the instant at which the
    /// helper was made, while no step has ended.
    pub closed spec fn latest_step_at(&self) -> Instant {
        self.latest_step
    }

    /// The instant of the step boundary before the last one; the instant at
    /// which the helper was made, while fewer than two steps have ended.
    pub closed spec fn previous_step_at(&self) -> Instant {
        self.previous_step
    }

    /// Neither the instant at which the helper was made nor the instants of
    /// the last two step boundaries differ between `self` and `other`.
    pub open spec fn same_instants(&self, other: &Self) -> bool {
        &&& self.started_at() == other.started_at()
        &&& self.latest_step_at() == other.latest_step_at()
        &&& self.previous_step_at() == other.previous_step_at()
    }

    /// What is gathered is in order.
    pub open spec fn wf(&self) -> bool {
        self.gathering().wf()
    }

    /// The application's state.
    pub fn user_data(&self) -> (state: &D)
        ensures
            *state == self.state(),
    {
        &self.user_data
    }

    /// The application's state, to be changed in place. Nothing else
    /// changes.
    pub fn user_data_mut(&mut self) -> (state: &mut D)
        ensures
            *state == old(self).state(),
            final(self).state() == *final(state),
            final(self).gathering() == old(self).gathering(),
            final(self).deferred() == old(self).deferred(),
            final(self).steps() == old(self).steps(),
            final(self).quit_flags() == old(self).quit_flags(),
            final(self).same_instants(old(self)),
    {
        &mut self.user_data
    }

    /// What has been gathered since the last step boundary.
    pub fn data(&self) -> (gathered: &CallbackData)
        ensures
            *gathered == self.gathering(),
    {
        &self.data
    }

    /// A helper that has gathered nothing, with nothing put off, no step
    /// ended and no reason to quit, made at the reading of the clock that
    /// the call takes.
    pub fn new(user_data: D) -> (helper: Self)
        ensures
            helper.wf(),
            helper.state() == user_data,
            helper.gathering()@ == AllView::empty(),
            helper.deferred() == Seq::<C>::empty(),
            helper.steps() == 0,
            helper.quit_flags().bits == 0,
            helper.latest_step_at() == helper.started_at(),
            helper.previous_step_at() == helper.started_at(),
    {
        let start = clock::now();
        EventHelper::new_at(user_data, start)
    }

    /// A helper that has gathered nothing, with nothing put off, no step
    /// ended and no reason to quit, made at the instant `start`.
    pub fn new_at(user_data: D, start: Instant) -> (helper: Self)
        ensures
            helper.wf(),
            helper.state() == user_data,
            helper.gathering()@ == AllView::empty(),
            helper.deferred() == Seq::<C>::empty(),
            helper.steps() == 0,
            helper.quit_flags().bits == 0,
            helper.started_at() == start,
            helper.latest_step_at() == start,
            helper.previous_step_at() == start,
    {
        EventHelper {
            user_data,
            data: CallbackData::default(),
            call_after: Vec::new(),
            previous_step: start,
            latest_step: start,
            start,
            update_count: 0,
            quit: Quit::empty(),
        }
    }

    /// The number of steps that have ended so far.
    pub fn update_count(&self) -> (count: usize)
        ensures
            count == self.steps(),
    {
        self.update_count
    }

    /// Puts the callback off until the next step boundary: it is called
    /// there once, after the callbacks that were put off before it and
    /// before the callbacks that are due for what has been gathered.
    pub fn call_after(&mut self, callback: C)
        ensures
            final(self).deferred() == old(self).deferred().push(callback),
            final(self).state() == old(self).state(),
            final(self).gathering() == old(self).gathering(),
            final(self).steps() == old(self).steps(),
            final(self).quit_flags() == old(self).quit_flags(),
            final(self).same_instants(old(self)),
    {
        self.call_after.push(callback);
    }

    /// The time from the instant at which the helper was made to `now`.
    pub fn time_since_start_at(&self, now: Instant) -> (length: Duration)
        ensures
            length == span(now, self.started_at()),
    {
        clock::since(&now, &self.start)
    }

    /// The time from the instant at which the helper was made to the
    /// reading of the clock that the call takes.
    pub fn time_since_start(&self) -> (length: Duration)
        ensures
            exists|now: Instant| length == span(now, self.started_at()),
    {
        let now = clock::now();
        self.time_since_start_at(now)
    }

    /// The time from the step boundary before the last one to `now`.
    pub fn time_since_previous_step_at(&self, now: Instant) -> (length: Duration)
        ensures
            length == span(now, self.previous_step_at()),
    {
        clock::since(&now, &self.previous_step)
    }

    /// The time from the step boundary before the last one to the reading
    /// of the clock that the call takes.
    pub fn time_since_previous_step(&self) -> (length: Duration)
        ensures
            exists|now: Instant| length == span(now, self.previous_step_at()),
    {
        let now = clock::now();
        self.time_since_previous_step_at(now)
    }

    /// Notes that the application itself wants to quit.
    pub fn request_quit(&mut self)
        ensures
            final(self).quit_flags().bits == old(self).quit_flags().bits | Quit::USER_REQUESTED,
            final(self).quit_flags().includes(Quit { bits: Quit::USER_REQUESTED }),
            final(self).quit_flags().includes(old(self).quit_flags()),
            final(self).state() == old(self).state(),
            final(self).gathering() == old(self).gathering(),
            final(self).deferred() == old(self).deferred(),
            final(self).steps() == old(self).steps(),
            final(self).same_instants(old(self)),
    {
        self.quit.insert(Quit { bits: Quit::USER_REQUESTED });
    }

    /// The reasons to quit that have been noted so far.
    pub fn quit(&self) -> (quit: Quit)
        ensures
            quit == self.quit_flags(),
    {
        self.quit
    }

    /// Notes the reasons to quit that `event` brings.
    fn note_quit(&mut self, event: &Event)
        ensures
            final(self).quit_flags() == quit_after(old(self).quit_flags(), *event),
            final(self).state() == old(self).state(),
            final(self).gathering() == old(self).gathering(),
            final(self).deferred() == old(self).deferred(),
            final(self).steps() == old(self).steps(),
            final(self).same_instants(old(self)),
    {
        match event {
            Event::LoopDestroyed => {
                self.quit.insert(Quit { bits: Quit::LOOP_DESTROYED });
            },
            Event::WindowEvent { window_id, event: WindowEvent::Destroyed } => {
                self.quit.insert(Quit { bits: Quit::WINDOW_DESTROYED });
            },
            _ => {},
        }
    }
}

impl<D: Clone, C: Copy> Clone for EventHelper<D, C> {
    /// A second helper: its state is a clone of this one's state, and
    /// everything else is as in this one.
    fn clone(&self) -> (copy: Self)
        ensures
            self.wf() ==> copy.wf() && copy.gathering()@ == self.gathering()@,
            cloned(self.state(), copy.state()),
            copy.deferred() == self.deferred(),
            copy.steps() == self.steps(),
            copy.quit_flags() == self.quit_flags(),
            copy.same_instants(self),
    {
        EventHelper {
            user_data: self.user_data.clone(),
            data: self.data.clone(),
            call_after: copied(&self.call_after),
            previous_step: self.previous_step,
            latest_step: self.latest_step,
            start: self.start,
            update_count: self.update_count,
            quit: self.quit,
        }
    }
}

impl<D: Default, C> Default for EventHelper<D, C> {
    fn default() -> (helper: Self)
        ensures
            helper.wf(),
            helper.gathering()@ == AllView::empty(),
            helper.deferred() == Seq::<C>::empty(),
            helper.steps() == 0,
            helper.quit_flags().bits == 0,
            helper.latest_step_at() == helper.started_at(),
            helper.previous_step_at() == helper.started_at(),
    {
        EventHelper::new(D::default())
    }
}

impl<D, C: Callback<D>> EventHelper<D, C> {
    /// What a step boundary does to a helper: the callbacks that were put
    /// off are called in their order and are put off no longer, then the
    /// callbacks that are due for what has been gathered are called, then
    /// what lasts one step only is forgotten, and one more step has ended,
    /// at the instant `now`.
    pub open spec fn step_ended<
        A,
        GG: CallbackWith<D, GeneralCallbackData>,
        GW: CallbackWith<D, WindowCallbackData>,
        GD: CallbackWith<D, DeviceCallbackData>,
    >(before: Self, callbacks: &Callbacks<C, A, GG, GW, GD>, now: Instant, after: Self) -> bool {
        &&& after.gathering()@ == before.gathering()@.clear()
        &&& after.latest_step_at() == now
        &&& after.deferred() == Seq::<C>::empty()
        &&& after.steps() == counted_once_more(before.steps())
        &&& after.quit_flags() == before.quit_flags()
        &&& after.started_at() == before.started_at()
        &&& after.previous_step_at() == before.latest_step_at()
        &&& exists|between: D| #[trigger]
            effects(before.deferred(), before.state(), between) && before.gathering().dispatched(
                callbacks,
                between,
                after.state(),
            )
    }

    /// What an event other than a step boundary does to a helper: it is
    /// gathered, and the reasons to quit that it brings are noted. An event
    /// of a key or a mouse button is also sent at once as signals, to the
    /// callback for any input and to the callback for this very input and
    /// signal; no other callback is called. Inputs that go down do so at
    /// the instant `now`.
    pub open spec fn gathered<A: CallbackWith<D, Signal<GenericInput>>, GG, GW, GD>(
        before: Self,
        callbacks: &Callbacks<C, A, GG, GW, GD>,
        event: Event,
        now: Instant,
        after: Self,
    ) -> bool {
        &&& after.gathering()@ == before.gathering()@.apply(event, now)
        &&& match before.gathering()@.signals(event) {
            Some((input, signals)) => signals_effect(
                callbacks.input_any,
                callbacks.input_signals@,
                input,
                input.code(),
                signals,
                before.state(),
                after.state(),
            ),
            None => after.state() == before.state(),
        }
        &&& after.deferred() == before.deferred()
        &&& after.steps() == before.steps()
        &&& after.quit_flags() == quit_after(before.quit_flags(), event)
        &&& after.same_instants(&before)
    }

    /// What taking in `event` at the instant `now` does to a helper: the end
    /// of a step if the event is a step boundary, and gathering otherwise.
    pub open spec fn updated<
        A: CallbackWith<D, Signal<GenericInput>>,
        GG: CallbackWith<D, GeneralCallbackData>,
        GW: CallbackWith<D, WindowCallbackData>,
        GD: CallbackWith<D, DeviceCallbackData>,
    >(before: Self, callbacks: &Callbacks<C, A, GG, GW, GD>, event: Event, now: Instant, after: Self) -> bool {
        if event.is_step_boundary() {
            Self::step_ended(before, callbacks, now, after)
        } else {
            Self::gathered(before, callbacks, event, now, after)
        }
    }

    /// Takes in one event, at the reading of the clock that the call takes.
    /// Tells whether the event ended a step, in which case the
    /// application's own logic for the step can run.
    pub fn update<
        A: CallbackWith<D, Signal<GenericInput>>,
        GG: CallbackWith<D, GeneralCallbackData>,
        GW: CallbackWith<D, WindowCallbackData>,
        GD: CallbackWith<D, DeviceCallbackData>,
    >(&mut self, callbacks: &Callbacks<C, A, GG, GW, GD>, event: &Event) -> (completed: bool)
        requires
            old(self).wf(),
            callbacks.wf(),
        ensures
            final(self).wf(),
            completed == event.is_step_boundary(),
            exists|now: Instant| #[trigger] Self::updated(*old(self), callbacks, *event, now, *final(self)),
    {
        let now = clock::now();
        self.update_at(callbacks, event, now)
    }

    /// Takes in one event at the instant `now`. Tells whether the event
    /// ended a step.
    pub fn update_at<
        A: CallbackWith<D, Signal<GenericInput>>,
        GG: CallbackWith<D, GeneralCallbackData>,
        GW: CallbackWith<D, WindowCallbackData>,
        GD: CallbackWith<D, DeviceCallbackData>,
    >(&mut self, callbacks: &Callbacks<C, A, GG, GW, GD>, event: &Event, now: Instant) -> (completed: bool)
        requires
            old(self).wf(),
            callbacks.wf(),
        ensures
            final(self).wf(),
            completed == event.is_step_boundary(),
            Self::updated(*old(self), callbacks, *event, now, *final(self)),
    {
        if event.ends_step() {
            call_all(&self.call_after, &mut self.user_data);
            self.call_after.clear();
            let ghost between = self.user_data;
            self.data.call_callbacks(&mut self.user_data, callbacks);
            self.data.clear();
            self.update_count = if self.update_count == usize::MAX {
                0
            } else {
                self.update_count + 1
            };
            self.previous_step = self.latest_step;
            self.latest_step = now;
            proof {
                assert(effects(old(self).deferred(), old(self).state(), between));
            }
            true
        } else {
            let signalled = self.data.signals(event);
            self.data.update_at(event, now);
            self.note_quit(event);
            match signalled {
                Some((input, signals)) => {
                    send_signals(
                        &callbacks.input_any,
                        &callbacks.input_signals,
                        input,
                        input.to_code(),
                        &signals,
                        &mut self.user_data,
                    );
                },
                None => {},
            }
            false
        }
    }
}

} // verus!
