//! What is gathered about one input device during a step, and the
//! callbacks that are called for it when the step ends.

use crate::clock;
use crate::default_ahashmap::{copied, Blank, DefaultAHashMap, Twin};
use crate::definitions::{AxisId, GenericInput};
use crate::dispatch::{effects, effects_with, effects_with_extend, Callback, CallbackWith};
use crate::events::{mouse_button_from_u32, mouse_button_of, DeviceEvent, MouseScrollDelta, Real64};
use crate::input::callbacks::InputCallbacks;
use crate::input::data::{InputData, InputDataView};
use std::time::Instant;
use vstd::prelude::*;

verus! {

/// What is gathered about a device, as mathematics.
pub struct DeviceView {
    /// The device was plugged in.
    pub added: bool,
    /// The device was unplugged.
    pub removed: bool,
    /// How far the mouse moved, movement by movement.
    pub mouse_motion: Seq<(Real64, Real64)>,
    pub text: Seq<char>,
    pub mouse_wheel: Seq<MouseScrollDelta>,
    pub motion: Seq<(AxisId, Real64)>,
    /// The inputs of the device.
    pub inputs: InputDataView,
}

impl DeviceView {
    /// Nothing gathered.
    pub open spec fn empty() -> Self {
        DeviceView {
            added: false,
            removed: false,
            mouse_motion: Seq::empty(),
            text: Seq::empty(),
            mouse_wheel: Seq::empty(),
            motion: Seq::empty(),
            inputs: InputDataView::empty(),
        }
    }

    /// What is gathered once `event` has been taken in. Inputs that go down
    /// do so at the instant `at`.
    pub open spec fn apply(self, event: DeviceEvent, at: Instant) -> Self {
        match event {
            DeviceEvent::Key(input) => {
                let by_position = self.inputs.update(
                    GenericInput::ScanCode(input.scancode),
                    input.state,
                    at,
                );
                DeviceView {
                    inputs: match input.virtual_keycode {
                        Some(key) => by_position.update(GenericInput::KeyCode(key), input.state, at),
                        None => by_position,
                    },
                    ..self
                }
            },
            DeviceEvent::Button { button, state } => DeviceView {
                inputs: self.inputs.update(GenericInput::MouseButton(mouse_button_of(button)), state, at),
                ..self
            },
            DeviceEvent::Text { codepoint } => DeviceView { text: self.text.push(codepoint), ..self },
            DeviceEvent::MouseWheel { delta } => DeviceView {
                mouse_wheel: self.mouse_wheel.push(delta),
                ..self
            },
            DeviceEvent::Motion { axis, value } => DeviceView {
                motion: self.motion.push((axis, value)),
                ..self
            },
            DeviceEvent::Added => DeviceView { added: true, ..self },
            DeviceEvent::Removed => DeviceView { removed: true, ..self },
            DeviceEvent::MouseMotion { delta } => DeviceView {
                mouse_motion: self.mouse_motion.push(delta),
                ..self
            },
        }
    }

    /// What is left when a step has ended: the inputs that are held and the
    /// modifier keys that are down.
    pub open spec fn clear(self) -> Self {
        DeviceView { inputs: self.inputs.clear(), ..Self::empty() }
    }

    /// Whether something has been gathered for the field, so that its
    /// callback is due.
    pub open spec fn fires(self, field: DeviceField) -> bool {
        match field {
            DeviceField::Added => self.added,
            DeviceField::Removed => self.removed,
            DeviceField::MouseMotion => self.mouse_motion.len() > 0,
            DeviceField::Text => self.text.len() > 0,
            DeviceField::MouseWheel => self.mouse_wheel.len() > 0,
            DeviceField::Motion => self.motion.len() > 0,
        }
    }

    /// The callbacks that are due for the first `upto` fields, in the order
    /// of the fields: a field's callback is due if something has been
    /// gathered for the field and a callback is registered for it.
    pub open spec fn field_plan<G>(self, callbacks: Map<u64, Option<G>>, upto: nat) -> Seq<G>
        decreases upto,
    {
        if upto == 0 {
            Seq::empty()
        } else {
            let earlier = self.field_plan(callbacks, (upto - 1) as nat);
            let index = (upto - 1) as u64;
            if self.fires(DeviceField::at(index)) && callbacks.dom().contains(index)
                && callbacks[index] is Some {
                earlier.push(callbacks[index]->0)
            } else {
                earlier
            }
        }
    }

    /// Right after a step has ended no callback of a field is due.
    pub proof fn clear_leaves_nothing_due(self, field: DeviceField)
        ensures
            !self.clear().fires(field),
            self.clear().inputs == self.inputs.clear(),
    {
    }
}

/// The things that are gathered about a device and that a callback can be
/// registered for, in the order in which their callbacks are called.
#[derive(Clone, Copy, Debug, PartialEq, Eq, Hash, Structural)]
pub enum DeviceField {
    Added,
    Removed,
    MouseMotion,
    Text,
    MouseWheel,
    Motion,
}

/// The number of things that a device callback can be registered for.
pub const DEVICE_FIELDS: u64 = 6;

impl DeviceField {
    /// The place of the field in the order of the fields.
    pub open spec fn index_of(self) -> u64 {
        match self {
            DeviceField::Added => 0,
            DeviceField::Removed => 1,
            DeviceField::MouseMotion => 2,
            DeviceField::Text => 3,
            DeviceField::MouseWheel => 4,
            DeviceField::Motion => 5,
        }
    }

    /// The field at a place in the order of the fields.
    pub open spec fn at(index: u64) -> DeviceField {
        if index == 0 {
            DeviceField::Added
        } else if index == 1 {
            DeviceField::Removed
        } else if index == 2 {
            DeviceField::MouseMotion
        } else if index == 3 {
            DeviceField::Text
        } else if index == 4 {
            DeviceField::MouseWheel
        } else {
            DeviceField::Motion
        }
    }

    /// Every field has its own place among the first `DEVICE_FIELDS`.
    pub proof fn places_are_distinct(self, other: DeviceField)
        ensures
            self.index_of() < DEVICE_FIELDS,
            DeviceField::at(self.index_of()) == self,
            self.index_of() == other.index_of() ==> self == other,
    {
    }

    /// Computes the place of the field in the order of the fields.
    pub fn index(self) -> (index: u64)
        ensures
            index == self.index_of(),
            index < DEVICE_FIELDS,
    {
        match self {
            DeviceField::Added => 0,
            DeviceField::Removed => 1,
            DeviceField::MouseMotion => 2,
            DeviceField::Text => 3,
            DeviceField::MouseWheel => 4,
            DeviceField::Motion => 5,
        }
    }
}

/// Finds the field at a place in the order of the fields.
pub fn device_field(index: u64) -> (field: DeviceField)
    ensures
        field == DeviceField::at(index),
{
    if index == 0 {
        DeviceField::Added
    } else if index == 1 {
        DeviceField::Removed
    } else if index == 2 {
        DeviceField::MouseMotion
    } else if index == 3 {
        DeviceField::Text
    } else if index == 4 {
        DeviceField::MouseWheel
    } else {
        DeviceField::Motion
    }
}

/// What is gathered about one input device during a step.
pub struct DeviceCallbackData {
    pub added: bool,
    pub removed: bool,
    pub mouse_motion: Vec<(Real64, Real64)>,
    pub text: Vec<char>,
    pub mouse_wheel: Vec<MouseScrollDelta>,
    pub motion: Vec<(AxisId, Real64)>,
    pub inputs: InputData,
}

impl View for DeviceCallbackData {
    type V = DeviceView;

    open spec fn view(&self) -> DeviceView {
        DeviceView {
            added: self.added,
            removed: self.removed,
            mouse_motion: self.mouse_motion@,
            text: self.text@,
            mouse_wheel: self.mouse_wheel@,
            motion: self.motion@,
            inputs: self.inputs@,
        }
    }
}

impl Default for DeviceCallbackData {
    fn default() -> (data: Self)
        ensures
            data@ == DeviceView::empty(),
    {
        DeviceCallbackData {
            added: false,
            removed: false,
            mouse_motion: Vec::new(),
            text: Vec::new(),
            mouse_wheel: Vec::new(),
            motion: Vec::new(),
            inputs: InputData::default(),
        }
    }
}

impl Clone for DeviceCallbackData {
    /// A second buffer that holds what this one holds.
    fn clone(&self) -> (copy: Self)
        ensures
            copy@ == self@,
    {
        DeviceCallbackData {
            added: self.added,
            removed: self.removed,
            mouse_motion: copied(&self.mouse_motion),
            text: copied(&self.text),
            mouse_wheel: copied(&self.mouse_wheel),
            motion: copied(&self.motion),
            inputs: self.inputs.clone(),
        }
    }
}

impl Twin for DeviceCallbackData {
    open spec fn alike(&self, other: &Self) -> bool {
        other@ == self@
    }

    fn twin(&self) -> (copy: Self) {
        self.clone()
    }
}

impl Blank for DeviceCallbackData {
    open spec fn is_blank(&self) -> bool {
        self@ == DeviceView::empty()
    }

    fn blank() -> (fresh: Self) {
        DeviceCallbackData::default()
    }
}

/// The callbacks for what is gathered about a device.
pub struct DeviceCallbacks<C, G> {
    /// For each field, by its place, the callback that is called when
    /// something has been gathered for the field.
    pub fields: DefaultAHashMap<Option<G>>,
    /// The callbacks bound to input combinations of the device.
    pub inputs: InputCallbacks<C>,
}

impl<C, G> DeviceCallbacks<C, G> {
    /// The map is in order, and a field without a callback has none.
    pub open spec fn wf(&self) -> bool {
        self.fields.wf() && self.fields.default_value() is None && self.inputs.wf()
    }

    /// The callback that is registered for the field, if there is one.
    pub open spec fn callback_for(&self, field: DeviceField) -> Option<G> {
        if self.fields@.dom().contains(field.index_of()) {
            self.fields@[field.index_of()]
        } else {
            None
        }
    }

    /// No callback at all.
    pub fn new() -> (callbacks: Self)
        ensures
            callbacks.wf(),
            callbacks.fields@ == Map::<u64, Option<G>>::empty(),
            callbacks.inputs.is_blank(),
    {
        DeviceCallbacks { fields: DefaultAHashMap::new(), inputs: InputCallbacks::default() }
    }

    /// Registers the callback for the field. A callback that was registered
    /// for the field before is replaced and handed back.
    pub fn on(&mut self, field: DeviceField, callback: G) -> (previous: Option<G>)
        requires
            old(self).wf(),
        ensures
            final(self).wf(),
            final(self).callback_for(field) == Some(callback),
            forall|other: DeviceField|
                other != field ==> final(self).callback_for(other) == old(self).callback_for(other),
            previous == old(self).callback_for(field),
            final(self).inputs == old(self).inputs,
    {
        proof {
            assert forall|other: DeviceField| other != field implies other.index_of()
                != field.index_of() by {
                other.places_are_distinct(field);
            }
        }
        match self.fields.insert(field.index(), Some(callback)) {
            Some(previous) => previous,
            None => None,
        }
    }
}

impl<C, G> Default for DeviceCallbacks<C, G> {
    fn default() -> (callbacks: Self)
        ensures
            callbacks.wf(),
            callbacks.fields@ == Map::<u64, Option<G>>::empty(),
            callbacks.inputs.is_blank(),
    {
        DeviceCallbacks::new()
    }
}

impl<C, G> Blank for DeviceCallbacks<C, G> {
    open spec fn is_blank(&self) -> bool {
        &&& self.wf()
        &&& self.fields@ == Map::<u64, Option<G>>::empty()
        &&& self.inputs.is_blank()
    }

    fn blank() -> (fresh: Self) {
        DeviceCallbacks::new()
    }
}

impl DeviceCallbackData {
    /// Takes in one event. Inputs that go down do so at the instant `at`.
    pub fn update_at(&mut self, event: &DeviceEvent, at: Instant)
        ensures
            final(self)@ == old(self)@.apply(*event, at),
    {
        match event {
            DeviceEvent::Key(input) => {
                self.inputs.update_at(GenericInput::ScanCode(input.scancode), input.state, at);
                match input.virtual_keycode {
                    Some(key) => {
                        self.inputs.update_at(GenericInput::KeyCode(key), input.state, at);
                    },
                    None => {},
                }
            },
            DeviceEvent::Button { button, state } => {
                self.inputs.update_at(GenericInput::MouseButton(mouse_button_from_u32(*button)), *state, at);
            },
            DeviceEvent::Text { codepoint } => {
                self.text.push(*codepoint);
            },
            DeviceEvent::MouseWheel { delta } => {
                self.mouse_wheel.push(*delta);
            },
            DeviceEvent::Motion { axis, value } => {
                self.motion.push((*axis, *value));
            },
            DeviceEvent::Added => {
                self.added = true;
            },
            DeviceEvent::Removed => {
                self.removed = true;
            },
            DeviceEvent::MouseMotion { delta } => {
                self.mouse_motion.push(*delta);
            },
        }
    }

    /// Takes in one event, now.
    pub fn update(&mut self, event: &DeviceEvent)
        ensures
            exists|at: Instant| final(self)@ == old(self)@.apply(*event, at),
    {
        let at = clock::now();
        self.update_at(event, at);
    }

    /// Ends a step: forgets everything but the inputs that are held and the
    /// modifier keys that are down.
    pub fn clear(&mut self)
        ensures
            final(self)@ == old(self)@.clear(),
    {
        self.added = false;
        self.removed = false;
        self.mouse_motion.clear();
        self.text.clear();
        self.mouse_wheel.clear();
        self.motion.clear();
        self.inputs.clear();
    }

    /// Whether something has been gathered for the field.
    pub fn fires(&self, field: DeviceField) -> (due: bool)
        ensures
            due == self@.fires(field),
    {
        match field {
            DeviceField::Added => self.added,
            DeviceField::Removed => self.removed,
            DeviceField::MouseMotion => self.mouse_motion.len() > 0,
            DeviceField::Text => self.text.len() > 0,
            DeviceField::MouseWheel => self.mouse_wheel.len() > 0,
            DeviceField::Motion => self.motion.len() > 0,
        }
    }

    /// Calling the callbacks that are due may turn the state `before` into
    /// `after`: first those of the fields, each being shown what has been
    /// gathered, then those bound to input combinations.
    pub open spec fn dispatched<D, C: Callback<D>, G: CallbackWith<D, DeviceCallbackData>>(
        &self,
        callbacks: &DeviceCallbacks<C, G>,
        before: D,
        after: D,
    ) -> bool {
        exists|between: D|
            #![trigger effects(self@.inputs.plan(callbacks.inputs), between, after)]
            effects_with(
                self@.field_plan(callbacks.fields@, DEVICE_FIELDS as nat),
                self,
                before,
                between,
            ) && effects(self@.inputs.plan(callbacks.inputs), between, after)
    }

    /// Calls the callbacks that are due.
    pub fn call_callbacks<D, C: Callback<D>, G: CallbackWith<D, DeviceCallbackData>>(
        &self,
        state: &mut D,
        callbacks: &DeviceCallbacks<C, G>,
    )
        requires
            callbacks.wf(),
        ensures
            self.dispatched(callbacks, *old(state), *final(state)),
    {
        let ghost start = *state;
        let mut index: u64 = 0;
        while index < DEVICE_FIELDS
            invariant
                index <= DEVICE_FIELDS,
                callbacks.wf(),
                effects_with(self@.field_plan(callbacks.fields@, index as nat), self, start, *state),
            decreases DEVICE_FIELDS - index,
        {
            let ghost between = *state;
            let field = device_field(index);
            if self.fires(field) {
                match callbacks.fields.get(index) {
                    Some(callback) => {
                        callback.call_with(state, self);
                        proof {
                            effects_with_extend(
                                self@.field_plan(callbacks.fields@, index as nat),
                                *callback,
                                self,
                                start,
                                between,
                                *state,
                            );
                        }
                    },
                    None => {},
                }
            }
            index += 1;
        }
        let ghost first = *state;
        self.inputs.call_callbacks(state, &callbacks.inputs);
        assert(effects(self@.inputs.plan(callbacks.inputs), first, *state));
    }
}

} // verus!
