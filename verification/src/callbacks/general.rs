//! What is gathered, during a step, of the events that belong to no window
//! and no device, and the callbacks that are called for it when the step
//! ends.

use crate::default_ahashmap::DefaultAHashMap;
use crate::dispatch::{
    effects, effects_extend, effects_with, effects_with_extend, Callback, CallbackWith,
};
use crate::events::{Event, StartCause, WindowId};
use crate::tables::{
    members, members_clear, members_clone, members_insert, members_list, members_new,
};
use ahash::AHashSet;
use vstd::prelude::*;

verus! {

/// What is gathered of the general events, as mathematics.
pub struct GeneralView {
    pub suspended: bool,
    pub resumed: bool,
    pub redraw_events_cleared: bool,
    pub loop_destroyed: bool,
    /// Why the event loop woke up last.
    pub new_events: Option<StartCause>,
    /// The windows that are to be drawn again.
    pub redraw_requested: Set<u64>,
}

/// The things that are gathered of the general events and that a callback
/// can be registered for, in the order in which their callbacks are called.
#[derive(Clone, Copy, Debug, PartialEq, Eq, Hash, Structural)]
pub enum GeneralField {
    Suspended,
    Resumed,
    RedrawEventsCleared,
    LoopDestroyed,
    NewEvents,
    RedrawRequested,
}

/// The number of things that a general callback can be registered for.
pub const GENERAL_FIELDS: u64 = 6;

/// The place of the field for the windows that are to be drawn again.
pub const REDRAW_REQUESTED: u64 = 5;

impl GeneralField {
    /// The place of the field in the order of the fields.
    pub open spec fn index_of(self) -> u64 {
        match self {
            GeneralField::Suspended => 0,
            GeneralField::Resumed => 1,
            GeneralField::RedrawEventsCleared => 2,
            GeneralField::LoopDestroyed => 3,
            GeneralField::NewEvents => 4,
            GeneralField::RedrawRequested => 5,
        }
    }

    /// The field at a place in the order of the fields.
    pub open spec fn at(index: u64) -> GeneralField {
        if index == 0 {
            GeneralField::Suspended
        } else if index == 1 {
            GeneralField::Resumed
        } else if index == 2 {
            GeneralField::RedrawEventsCleared
        } else if index == 3 {
            GeneralField::LoopDestroyed
        } else if index == 4 {
            GeneralField::NewEvents
        } else {
            GeneralField::RedrawRequested
        }
    }

    /// Every field has its own place among the first `GENERAL_FIELDS`.
    pub proof fn places_are_distinct(self, other: GeneralField)
        ensures
            self.index_of() < GENERAL_FIELDS,
            GeneralField::at(self.index_of()) == self,
            self.index_of() == other.index_of() ==> self == other,
    {
    }

    /// Computes the place of the field in the order of the fields.
    pub fn index(self) -> (index: u64)
        ensures
            index == self.index_of(),
            index < GENERAL_FIELDS,
    {
        match self {
            GeneralField::Suspended => 0,
            GeneralField::Resumed => 1,
            GeneralField::RedrawEventsCleared => 2,
            GeneralField::LoopDestroyed => 3,
            GeneralField::NewEvents => 4,
            GeneralField::RedrawRequested => 5,
        }
    }
}

/// Finds the field at a place in the order of the fields.
pub fn general_field(index: u64) -> (field: GeneralField)
    ensures
        field == GeneralField::at(index),
{
    if index == 0 {
        GeneralField::Suspended
    } else if index == 1 {
        GeneralField::Resumed
    } else if index == 2 {
        GeneralField::RedrawEventsCleared
    } else if index == 3 {
        GeneralField::LoopDestroyed
    } else if index == 4 {
        GeneralField::NewEvents
    } else {
        GeneralField::RedrawRequested
    }
}

/// The callbacks that are registered for the keys of `listing`, in the
/// order of the listing; a key without a callback is passed over.
pub open spec fn keyed_plan<K, C>(listing: Seq<K>, keyed: Map<K, Option<C>>) -> Seq<C>
    decreases listing.len(),
{
    if listing.len() == 0 {
        Seq::empty()
    } else {
        let earlier = keyed_plan(listing.drop_last(), keyed);
        if keyed.dom().contains(listing.last()) && keyed[listing.last()] is Some {
            earlier.push(keyed[listing.last()]->0)
        } else {
            earlier
        }
    }
}

impl GeneralView {
    /// Nothing gathered.
    pub open spec fn empty() -> Self {
        GeneralView {
            suspended: false,
            resumed: false,
            redraw_events_cleared: false,
            loop_destroyed: false,
            new_events: None,
            redraw_requested: Set::empty(),
        }
    }

    /// What is gathered once `event` has been taken in. Events of windows
    /// and devices, and the end of a step, leave it as it is.
    pub open spec fn apply(self, event: Event) -> Self {
        match event {
            Event::LoopDestroyed => GeneralView { loop_destroyed: true, ..self },
            Event::NewEvents(cause) => GeneralView { new_events: Some(cause), ..self },
            Event::Suspended => GeneralView { suspended: true, ..self },
            Event::Resumed => GeneralView { resumed: true, ..self },
            Event::RedrawRequested(window) => GeneralView {
                redraw_requested: self.redraw_requested.insert(window.0),
                ..self
            },
            Event::RedrawEventsCleared => GeneralView { redraw_events_cleared: true, ..self },
            _ => self,
        }
    }

    /// When a step has ended nothing is left.
    pub open spec fn clear(self) -> Self {
        Self::empty()
    }

    /// Whether something has been gathered for the field, so that its
    /// callback is due.
    pub open spec fn fires(self, field: GeneralField) -> bool {
        match field {
            GeneralField::Suspended => self.suspended,
            GeneralField::Resumed => self.resumed,
            GeneralField::RedrawEventsCleared => self.redraw_events_cleared,
            GeneralField::LoopDestroyed => self.loop_destroyed,
            GeneralField::NewEvents => self.new_events is Some,
            GeneralField::RedrawRequested => self.redraw_requested != Set::<u64>::empty(),
        }
    }

    /// The callbacks that are due for the fields from place `from` up to,
    /// but not including, place `upto`, in the order of the fields: a
    /// field's callback is due if something has been gathered for the field
    /// and a callback is registered for it.
    pub open spec fn field_plan<G>(self, callbacks: Map<u64, Option<G>>, from: nat, upto: nat) -> Seq<G>
        decreases upto,
    {
        if upto <= from {
            Seq::empty()
        } else {
            let earlier = self.field_plan(callbacks, from, (upto - 1) as nat);
            let index = (upto - 1) as u64;
            if self.fires(GeneralField::at(index)) && callbacks.dom().contains(index)
                && callbacks[index] is Some {
                earlier.push(callbacks[index]->0)
            } else {
                earlier
            }
        }
    }

    /// Right after a step has ended no callback of a field is due.
    pub proof fn clear_leaves_nothing_due(self, field: GeneralField)
        ensures
            !self.clear().fires(field),
    {
    }
}

/// What is gathered of the general events during a step.
pub struct GeneralCallbackData {
    pub suspended: bool,
    pub resumed: bool,
    pub redraw_events_cleared: bool,
    pub loop_destroyed: bool,
    pub new_events: Option<StartCause>,
    pub redraw_requested: AHashSet<u64>,
}

impl View for GeneralCallbackData {
    type V = GeneralView;

    open spec fn view(&self) -> GeneralView {
        GeneralView {
            suspended: self.suspended,
            resumed: self.resumed,
            redraw_events_cleared: self.redraw_events_cleared,
            loop_destroyed: self.loop_destroyed,
            new_events: self.new_events,
            redraw_requested: members(self.redraw_requested),
        }
    }
}

impl Clone for GeneralCallbackData {
    /// A second buffer that holds what this one holds.
    fn clone(&self) -> (copy: Self)
        ensures
            copy@ == self@,
    {
        GeneralCallbackData {
            suspended: self.suspended,
            resumed: self.resumed,
            redraw_events_cleared: self.redraw_events_cleared,
            loop_destroyed: self.loop_destroyed,
            new_events: self.new_events,
            redraw_requested: members_clone(&self.redraw_requested),
        }
    }
}

impl Default for GeneralCallbackData {
    fn default() -> (data: Self)
        ensures
            data@ == GeneralView::empty(),
    {
        GeneralCallbackData {
            suspended: false,
            resumed: false,
            redraw_events_cleared: false,
            loop_destroyed: false,
            new_events: None,
            redraw_requested: members_new(),
        }
    }
}

/// The callbacks for what is gathered of the general events.
pub struct GeneralCallbacks<C, G> {
    /// For each field, by its place, the callback that is called when
    /// something has been gathered for the field.
    pub fields: DefaultAHashMap<Option<G>>,
    /// For single windows, the callback that is called when the window is
    /// to be drawn again.
    pub redraw_requested_with_key: DefaultAHashMap<Option<C>>,
}

impl<C, G> GeneralCallbacks<C, G> {
    /// The maps are in order, and where no callback is registered there is
    /// none.
    pub open spec fn wf(&self) -> bool {
        &&& self.fields.wf()
        &&& self.fields.default_value() is None
        &&& self.redraw_requested_with_key.wf()
        &&& self.redraw_requested_with_key.default_value() is None
    }

    /// The callback that is registered for the field, if there is one.
    pub open spec fn callback_for(&self, field: GeneralField) -> Option<G> {
        if self.fields@.dom().contains(field.index_of()) {
            self.fields@[field.index_of()]
        } else {
            None
        }
    }

    /// The callback that is registered for the redrawing of the window, if
    /// there is one.
    pub open spec fn redraw_callback_for(&self, window: WindowId) -> Option<C> {
        if self.redraw_requested_with_key@.dom().contains(window.0) {
            self.redraw_requested_with_key@[window.0]
        } else {
            None
        }
    }

    /// No callback at all.
    pub fn new() -> (callbacks: Self)
        ensures
            callbacks.wf(),
            callbacks.fields@ == Map::<u64, Option<G>>::empty(),
            callbacks.redraw_requested_with_key@ == Map::<u64, Option<C>>::empty(),
    {
        GeneralCallbacks { fields: DefaultAHashMap::new(), redraw_requested_with_key: DefaultAHashMap::new() }
    }

    /// Registers the callback for the field. A callback that was registered
    /// for the field before is replaced and handed back.
    pub fn on(&mut self, field: GeneralField, callback: G) -> (previous: Option<G>)
        requires
            old(self).wf(),
        ensures
            final(self).wf(),
            final(self).callback_for(field) == Some(callback),
            forall|other: GeneralField|
                other != field ==> final(self).callback_for(other) == old(self).callback_for(other),
            previous == old(self).callback_for(field),
            final(self).redraw_requested_with_key == old(self).redraw_requested_with_key,
    {
        proof {
            assert forall|other: GeneralField| other != field implies other.index_of()
                != field.index_of() by {
                other.places_are_distinct(field);
            }
        }
        match self.fields.insert(field.index(), Some(callback)) {
            Some(previous) => previous,
            None => None,
        }
    }

    /// Registers the callback for the redrawing of one window. A callback
    /// that was registered for the window before is replaced and handed
    /// back.
    pub fn redraw_requested_with_key(&mut self, window: WindowId, callback: C) -> (previous: Option<C>)
        requires
            old(self).wf(),
        ensures
            final(self).wf(),
            final(self).redraw_callback_for(window) == Some(callback),
            forall|other: WindowId|
                other != window ==> final(self).redraw_callback_for(other) == old(
                    self,
                ).redraw_callback_for(other),
            previous == old(self).redraw_callback_for(window),
            final(self).fields == old(self).fields,
    {
        match self.redraw_requested_with_key.insert(window.0, Some(callback)) {
            Some(previous) => previous,
            None => None,
        }
    }
}

impl<C, G> Default for GeneralCallbacks<C, G> {
    fn default() -> (callbacks: Self)
        ensures
            callbacks.wf(),
            callbacks.fields@ == Map::<u64, Option<G>>::empty(),
            callbacks.redraw_requested_with_key@ == Map::<u64, Option<C>>::empty(),
    {
        GeneralCallbacks::new()
    }
}

impl GeneralCallbackData {
    /// Takes in one event. Events of windows and devices, and the end of a
    /// step, change nothing.
    pub fn update(&mut self, event: &Event)
        ensures
            final(self)@ == old(self)@.apply(*event),
    {
        match event {
            Event::LoopDestroyed => {
                self.loop_destroyed = true;
            },
            Event::NewEvents(cause) => {
                self.new_events = Some(*cause);
            },
            Event::Suspended => {
                self.suspended = true;
            },
            Event::Resumed => {
                self.resumed = true;
            },
            Event::RedrawRequested(window) => {
                members_insert(&mut self.redraw_requested, window.0);
            },
            Event::RedrawEventsCleared => {
                self.redraw_events_cleared = true;
            },
            _ => {},
        }
    }

    /// Ends a step: forgets everything.
    pub fn clear(&mut self)
        ensures
            final(self)@ == old(self)@.clear(),
    {
        self.suspended = false;
        self.resumed = false;
        self.redraw_events_cleared = false;
        self.loop_destroyed = false;
        self.new_events = None;
        members_clear(&mut self.redraw_requested);
    }

    /// Whether something has been gathered for the field.
    pub fn fires(&self, field: GeneralField) -> (due: bool)
        ensures
            due == self@.fires(field),
    {
        match field {
            GeneralField::Suspended => self.suspended,
            GeneralField::Resumed => self.resumed,
            GeneralField::RedrawEventsCleared => self.redraw_events_cleared,
            GeneralField::LoopDestroyed => self.loop_destroyed,
            GeneralField::NewEvents => self.new_events.is_some(),
            GeneralField::RedrawRequested => {
                let listing = members_list(&self.redraw_requested);
                proof {
                    if listing@.len() > 0 {
                        assert(listing@.to_set().contains(listing@[0]));
                    } else {
                        assert(listing@.to_set() =~= Set::<u64>::empty());
                    }
                }
                listing.len() > 0
            },
        }
    }

    /// The windows that are to be drawn again, each once, in no particular
    /// order.
    pub fn redraw_requested(&self) -> (windows: Vec<u64>)
        ensures
            windows@.no_duplicates(),
            windows@.to_set() == self@.redraw_requested,
    {
        members_list(&self.redraw_requested)
    }

    /// Calling the callbacks that are due may turn the state `before` into
    /// `after`: first those of the fields before the one for redrawing,
    /// then those registered for single windows that are to be drawn again
    /// (window after window, in some order), then the one for redrawing as
    /// a whole. The callbacks of fields are shown what has been gathered.
    pub open spec fn dispatched<D, C: Callback<D>, G: CallbackWith<D, GeneralCallbackData>>(
        &self,
        callbacks: &GeneralCallbacks<C, G>,
        before: D,
        after: D,
    ) -> bool {
        exists|first: D, second: D, listing: Seq<u64>|
            #![trigger
                effects(keyed_plan(listing, callbacks.redraw_requested_with_key@), first, second)]
            effects_with(
                self@.field_plan(callbacks.fields@, 0, REDRAW_REQUESTED as nat),
                self,
                before,
                first,
            ) && listing.no_duplicates() && listing.to_set() == self@.redraw_requested && effects(
                keyed_plan(listing, callbacks.redraw_requested_with_key@),
                first,
                second,
            ) && effects_with(
                self@.field_plan(callbacks.fields@, REDRAW_REQUESTED as nat, GENERAL_FIELDS as nat),
                self,
                second,
                after,
            )
    }

    /// Calls the callbacks of the fields from place `from` up to, but not
    /// including, place `upto` that are due.
    fn call_fields<D, G: CallbackWith<D, GeneralCallbackData>>(
        &self,
        state: &mut D,
        fields: &DefaultAHashMap<Option<G>>,
        from: u64,
        upto: u64,
    )
        requires
            fields.wf(),
            fields.default_value() is None,
            from <= upto,
        ensures
            effects_with(
                self@.field_plan(fields@, from as nat, upto as nat),
                self,
                *old(state),
                *final(state),
            ),
    {
        let ghost start = *state;
        let mut index: u64 = from;
        while index < upto
            invariant
                from <= index <= upto,
                fields.wf(),
                fields.default_value() is None,
                effects_with(self@.field_plan(fields@, from as nat, index as nat), self, start, *state),
            decreases upto - index,
        {
            let ghost between = *state;
            let field = general_field(index);
            if self.fires(field) {
                match fields.get(index) {
                    Some(callback) => {
                        callback.call_with(state, self);
                        proof {
                            effects_with_extend(
                                self@.field_plan(fields@, from as nat, index as nat),
                                *callback,
                                self,
                                start,
                                between,
                                *state,
                            );
                        }
                    },
                    None => {},
                }
            }
            index += 1;
        }
    }

    /// Calls the callbacks that are due.
    pub fn call_callbacks<D, C: Callback<D>, G: CallbackWith<D, GeneralCallbackData>>(
        &self,
        state: &mut D,
        callbacks: &GeneralCallbacks<C, G>,
    )
        requires
            callbacks.wf(),
        ensures
            self.dispatched(callbacks, *old(state), *final(state)),
    {
        self.call_fields(state, &callbacks.fields, 0, REDRAW_REQUESTED);
        let ghost first = *state;
        let listing = members_list(&self.redraw_requested);
        let mut i: usize = 0;
        while i < listing.len()
            invariant
                i <= listing@.len(),
                callbacks.wf(),
                effects(
                    keyed_plan(listing@.take(i as int), callbacks.redraw_requested_with_key@),
                    first,
                    *state,
                ),
            decreases listing@.len() - i,
        {
            let ghost between = *state;
            assert(listing@.take(i + 1).drop_last() =~= listing@.take(i as int));
            match callbacks.redraw_requested_with_key.get(listing[i]) {
                Some(callback) => {
                    callback.call(state);
                    proof {
                        effects_extend(
                            keyed_plan(listing@.take(i as int), callbacks.redraw_requested_with_key@),
                            *callback,
                            first,
                            between,
                            *state,
                        );
                    }
                },
                None => {},
            }
            i += 1;
        }
        assert(listing@.take(i as int) =~= listing@);
        let ghost second = *state;
        self.call_fields(state, &callbacks.fields, REDRAW_REQUESTED, GENERAL_FIELDS);
        assert(effects(keyed_plan(listing@, callbacks.redraw_requested_with_key@), first, second));
    }
}

} // verus!
