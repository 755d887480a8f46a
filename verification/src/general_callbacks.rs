//! Callbacks that are called as soon as an event is taken in that belongs to
//! no window and no device.

use crate::callback_data::{CallbackData, DataView};
use crate::default_ahashmap::DefaultAHashMap;
use crate::definitions::Quit;
use crate::dispatch::CallbackWith;
use crate::events::Event;
use crate::input::kept_under;
use vstd::prelude::*;

verus! {

/// The kinds of general events that a callback can be registered for.
#[derive(Clone, Copy, Debug, PartialEq, Eq, Hash, Structural)]
pub enum GeneralEventKind {
    LoopDestroyed,
    NewEvents,
    Suspended,
    Resumed,
    RedrawEventsCleared,
    RedrawRequested,
}

impl GeneralEventKind {
    /// The kind of an event, for the events that have one.
    pub open spec fn of(event: Event) -> Option<GeneralEventKind> {
        match event {
            Event::LoopDestroyed => Some(GeneralEventKind::LoopDestroyed),
            Event::NewEvents(..) => Some(GeneralEventKind::NewEvents),
            Event::Suspended => Some(GeneralEventKind::Suspended),
            Event::Resumed => Some(GeneralEventKind::Resumed),
            Event::RedrawEventsCleared => Some(GeneralEventKind::RedrawEventsCleared),
            Event::RedrawRequested(..) => Some(GeneralEventKind::RedrawRequested),
            _ => None,
        }
    }

    /// The number under which the callback for the kind is kept.
    pub open spec fn index_of(self) -> u64 {
        match self {
            GeneralEventKind::LoopDestroyed => 0,
            GeneralEventKind::NewEvents => 1,
            GeneralEventKind::Suspended => 2,
            GeneralEventKind::Resumed => 3,
            GeneralEventKind::RedrawEventsCleared => 4,
            GeneralEventKind::RedrawRequested => 5,
        }
    }

    /// Different kinds are kept under different numbers.
    pub proof fn numbers_are_distinct(self, other: GeneralEventKind)
        ensures
            self.index_of() == other.index_of() ==> self == other,
    {
    }

    /// Tells the kind of an event, for the events that have one.
    pub fn kind_of(event: &Event) -> (kind: Option<GeneralEventKind>)
        ensures
            kind == Self::of(*event),
    {
        match event {
            Event::LoopDestroyed => Some(GeneralEventKind::LoopDestroyed),
            Event::NewEvents(..) => Some(GeneralEventKind::NewEvents),
            Event::Suspended => Some(GeneralEventKind::Suspended),
            Event::Resumed => Some(GeneralEventKind::Resumed),
            Event::RedrawEventsCleared => Some(GeneralEventKind::RedrawEventsCleared),
            Event::RedrawRequested(..) => Some(GeneralEventKind::RedrawRequested),
            _ => None,
        }
    }

    /// Computes the number under which the callback for the kind is kept.
    pub fn index(self) -> (index: u64)
        ensures
            index == self.index_of(),
    {
        match self {
            GeneralEventKind::LoopDestroyed => 0,
            GeneralEventKind::NewEvents => 1,
            GeneralEventKind::Suspended => 2,
            GeneralEventKind::Resumed => 3,
            GeneralEventKind::RedrawEventsCleared => 4,
            GeneralEventKind::RedrawRequested => 5,
        }
    }
}

/// What the data holds once a general event has been taken in, before any
/// callback is called: the end of the event loop is a reason to quit.
pub open spec fn taken_in<D>(data: DataView<D>, event: Event) -> DataView<D> {
    match event {
        Event::LoopDestroyed => DataView {
            quit: Quit { bits: data.quit.bits | Quit::LOOP_DESTROYED },
            ..data
        },
        _ => data,
    }
}

/// The callbacks for the general events.
pub struct GeneralCallbacks<G> {
    /// For each kind of event, the callback that is called with the event.
    pub on_event: DefaultAHashMap<Option<G>>,
}

impl<G> GeneralCallbacks<G> {
    /// The map is in order, and where no callback is registered there is
    /// none.
    pub open spec fn wf(&self) -> bool {
        self.on_event.wf() && self.on_event.default_value() is None
    }

    /// The callback for a kind of event, if there is one.
    pub open spec fn event_callback(&self, kind: GeneralEventKind) -> Option<G> {
        kept_under(self.on_event@, kind.index_of())
    }

    /// What registering `callback` for a kind of event does: the kind has
    /// this callback afterwards, and nothing else changes.
    pub open spec fn registered_on(before: Self, kind: GeneralEventKind, callback: G, after: Self) -> bool {
        &&& after.wf()
        &&& after.event_callback(kind) == Some(callback)
        &&& forall|other: GeneralEventKind|
            other != kind ==> after.event_callback(other) == before.event_callback(other)
    }

    /// No callback at all.
    pub fn new() -> (callbacks: Self)
        ensures
            callbacks.wf(),
            callbacks.on_event@ == Map::<u64, Option<G>>::empty(),
    {
        GeneralCallbacks { on_event: DefaultAHashMap::new() }
    }

    /// Registers the callback for a kind of event; the last callback
    /// registered for a kind is the one that is called.
    pub fn on(&mut self, kind: GeneralEventKind, callback: G)
        requires
            old(self).wf(),
        ensures
            final(self).wf(),
            final(self).event_callback(kind) == Some(callback),
            forall|other: GeneralEventKind|
                other != kind ==> final(self).event_callback(other) == old(self).event_callback(other),
    {
        proof {
            assert forall|other: GeneralEventKind| other != kind implies other.index_of()
                != kind.index_of() by {
                other.numbers_are_distinct(kind);
            }
        }
        self.on_event.insert(kind.index(), Some(callback));
    }

    /// Registers the callback that is called when the event loop ends.
    pub fn loop_destroyed(&mut self, callback: G)
        requires
            old(self).wf(),
        ensures
            Self::registered_on(*old(self), GeneralEventKind::LoopDestroyed, callback, *final(self)),
    {
        self.on(GeneralEventKind::LoopDestroyed, callback);
    }

    /// Registers the callback that is called when the event loop wakes up.
    pub fn new_events(&mut self, callback: G)
        requires
            old(self).wf(),
        ensures
            Self::registered_on(*old(self), GeneralEventKind::NewEvents, callback, *final(self)),
    {
        self.on(GeneralEventKind::NewEvents, callback);
    }

    /// Registers the callback that is called when all windows have been drawn again.
    pub fn redraw_events_cleared(&mut self, callback: G)
        requires
            old(self).wf(),
        ensures
            Self::registered_on(*old(self), GeneralEventKind::RedrawEventsCleared, callback, *final(self)),
    {
        self.on(GeneralEventKind::RedrawEventsCleared, callback);
    }

    /// Registers the callback that is called when a window is to be drawn again.
    pub fn redraw_requested(&mut self, callback: G)
        requires
            old(self).wf(),
        ensures
            Self::registered_on(*old(self), GeneralEventKind::RedrawRequested, callback, *final(self)),
    {
        self.on(GeneralEventKind::RedrawRequested, callback);
    }

    /// Registers the callback that is called when the application is resumed.
    pub fn resumed(&mut self, callback: G)
        requires
            old(self).wf(),
        ensures
            Self::registered_on(*old(self), GeneralEventKind::Resumed, callback, *final(self)),
    {
        self.on(GeneralEventKind::Resumed, callback);
    }

    /// Registers the callback that is called when the application is suspended.
    pub fn suspended(&mut self, callback: G)
        requires
            old(self).wf(),
        ensures
            Self::registered_on(*old(self), GeneralEventKind::Suspended, callback, *final(self)),
    {
        self.on(GeneralEventKind::Suspended, callback);
    }

    /// Calling the callback for `event` may turn the data `before` into
    /// `after`. An event without a kind, or of a kind without a callback,
    /// calls nothing.
    pub open spec fn reacted<D>(&self, event: Event, before: CallbackData<D>, after: CallbackData<D>) -> bool where
        G: CallbackWith<CallbackData<D>, Event>,
     {
        match GeneralEventKind::of(event) {
            Some(kind) => match self.event_callback(kind) {
                Some(callback) => callback.allows_with(&event, before, after),
                None => after == before,
            },
            None => after == before,
        }
    }

    /// Takes in one general event and calls the callback for it.
    pub fn update<D>(&self, data: &mut CallbackData<D>, event: &Event) where
        G: CallbackWith<CallbackData<D>, Event>,

        requires
            self.wf(),
        ensures
            exists|between: CallbackData<D>|
                between@ == taken_in(old(data)@, *event) && #[trigger] self.reacted(
                    *event,
                    between,
                    *final(data),
                ),
    {
        match event {
            Event::LoopDestroyed => {
                data.quit.insert(Quit { bits: Quit::LOOP_DESTROYED });
            },
            _ => {},
        }
        let ghost between = *data;
        match GeneralEventKind::kind_of(event) {
            Some(kind) => {
                match self.on_event.get(kind.index()) {
                    Some(callback) => {
                        callback.call_with(data, event);
                    },
                    None => {},
                }
            },
            None => {},
        }
        assert(self.reacted(*event, between, *data));
    }
}

impl<G> Default for GeneralCallbacks<G> {
    fn default() -> (callbacks: Self)
        ensures
            callbacks.wf(),
            callbacks.on_event@ == Map::<u64, Option<G>>::empty(),
    {
        GeneralCallbacks::new()
    }
}

} // verus!
