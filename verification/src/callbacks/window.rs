//! What is gathered about one window during a step, and the callbacks that
//! are called for it when the step ends.

use crate::default_ahashmap::{copied, Blank, DefaultAHashMap, Twin};
use crate::definitions::{AxisId, CursorState, ElementState, GenericInput, QuitWindow};
use crate::dispatch::{
    effects, effects_extend, effects_with, effects_with_extend, Callback, CallbackWith,
};
use crate::input::callbacks::InputCallbacks;
use crate::callbacks::by_text::TextCallbacks;
use crate::callbacks::general::keyed_plan;
use crate::callbacks::window_device::{
    sharing_device, sharing_device_of, WindowDeviceData, WindowDeviceView,
};
use crate::events::DeviceId;
use crate::input::data::sharded_plan;
use crate::events::{
    IdLessTouch, Ime, MouseScrollDelta, PhysicalPosition, PhysicalSize, Real32, Real64, Theme,
    TouchPhase, WindowEvent,
};
use crate::input::data::{InputData, InputDataView, InputDataWithId};
use crate::tables::{
    texts, texts_clear, texts_clone, texts_insert, texts_is_empty, texts_list, texts_new,
};
use crate::clock;
use ahash::AHashSet;
use std::time::Instant;
use vstd::prelude::*;

verus! {

/// What is gathered about a window, as mathematics.
pub struct WindowView {
    /// Where the window is; kept from step to step.
    pub position: Option<PhysicalPosition<i32>>,
    /// How large the window is; kept from step to step.
    pub size: Option<PhysicalSize<u32>>,
    pub focused: Option<bool>,
    pub occluded: Option<bool>,
    pub moved: Option<PhysicalPosition<i32>>,
    pub resized: Option<PhysicalSize<u32>>,
    pub cursor_state: Option<CursorState>,
    pub cursor_entered: Option<bool>,
    pub cursor_moved: Option<PhysicalPosition<Real64>>,
    pub quit: Option<QuitWindow>,
    pub scale_factor: Option<Real64>,
    pub theme: Option<Theme>,
    pub hover_cancelled: Option<bool>,
    pub smart_magnify: Option<usize>,
    pub mouse_wheel: Seq<MouseScrollDelta>,
    pub text: Seq<char>,
    pub ime: Seq<Ime>,
    pub touch: Seq<IdLessTouch>,
    pub touchpad_pressure: Seq<(i64, Real32)>,
    pub touchpad_magnify: Seq<(Real64, TouchPhase)>,
    pub touchpad_rotate: Seq<(Real32, TouchPhase)>,
    pub axis_motion: Seq<(AxisId, Real64)>,
    pub hovered_files: Set<Seq<char>>,
    pub dropped_files: Set<Seq<char>>,
    /// The inputs of the window, whatever device they come from.
    pub inputs: InputDataView,
    /// The inputs of the window, device by device.
    pub inputs_with_id: Map<u64, InputDataView>,
    /// What the cursor, the mouse wheel, the touch screen and the touchpad
    /// did, device by device.
    pub with_id: Map<u64, WindowDeviceView>,
}

/// One more than `count`, starting again at zero after the largest number.
pub open spec fn counted_once_more(count: usize) -> usize {
    if count == usize::MAX {
        0
    } else {
        (count + 1) as usize
    }
}

impl WindowView {
    /// Nothing gathered.
    pub open spec fn empty() -> Self {
        WindowView {
            position: None,
            size: None,
            focused: None,
            occluded: None,
            moved: None,
            resized: None,
            cursor_state: None,
            cursor_entered: None,
            cursor_moved: None,
            quit: None,
            scale_factor: None,
            theme: None,
            hover_cancelled: None,
            smart_magnify: None,
            mouse_wheel: Seq::empty(),
            text: Seq::empty(),
            ime: Seq::empty(),
            touch: Seq::empty(),
            touchpad_pressure: Seq::empty(),
            touchpad_magnify: Seq::empty(),
            touchpad_rotate: Seq::empty(),
            axis_motion: Seq::empty(),
            hovered_files: Set::empty(),
            dropped_files: Set::empty(),
            inputs: InputDataView::empty(),
            inputs_with_id: Map::empty(),
            with_id: Map::empty(),
        }
    }

    /// What is gathered for one device; nothing, before the device has
    /// sent anything in this step.
    pub open spec fn share_of(self, device: u64) -> WindowDeviceView {
        if self.with_id.dom().contains(device) {
            self.with_id[device]
        } else {
            WindowDeviceView::empty()
        }
    }

    /// What the event adds to the share of the device that sent it.
    pub open spec fn share(self, event: WindowEvent) -> Self {
        match sharing_device(event) {
            Some(device) => WindowView {
                with_id: self.with_id.insert(device, self.share_of(device).apply(event)),
                ..self
            },
            None => self,
        }
    }

    /// What is known of the inputs of one device; nothing, before the
    /// device was first heard of.
    pub open spec fn of_device(self, device: u64) -> InputDataView {
        if self.inputs_with_id.dom().contains(device) {
            self.inputs_with_id[device]
        } else {
            InputDataView::empty()
        }
    }

    /// An input of `device` goes down or up.
    pub open spec fn input(self, device: u64, input: GenericInput, state: ElementState, at: Instant) -> Self {
        WindowView {
            inputs: self.inputs.update(input, state, at),
            inputs_with_id: self.inputs_with_id.insert(
                device,
                self.of_device(device).update(input, state, at),
            ),
            ..self
        }
    }

    /// The reason `flag` for the window to go away is noted.
    pub open spec fn quitting(self, flag: u8) -> Self {
        let so_far: u8 = match self.quit {
            Some(quit) => quit.bits,
            None => 0,
        };
        WindowView { quit: Some(QuitWindow { bits: so_far | flag }), ..self }
    }

    /// What is gathered once `event` has been taken in: for the window as
    /// a whole and, where the event comes from a device's cursor, wheel,
    /// touch screen or touchpad, for that device. Inputs that go down do so
    /// at the instant `at`.
    pub open spec fn apply(self, event: WindowEvent, at: Instant) -> Self {
        self.gather(event, at).share(event)
    }

    /// What is gathered for the window as a whole once `event` has been
    /// taken in. Inputs that go down do so at the instant `at`.
    ///
    /// Keys and mouse buttons are tracked from the raw events alone: a key
    /// is held from its first "pressed" event to its "released" event, and
    /// losing the focus releases nothing. A key event counts for the key by
    /// position and, where the event names it, for the key by meaning. A
    /// change of the modifier keys is noted for the window as a whole, not
    /// for single devices.
    pub open spec fn gather(self, event: WindowEvent, at: Instant) -> Self {
        match event {
            WindowEvent::Focused(focused) => WindowView { focused: Some(focused), ..self },
            WindowEvent::Moved(position) => WindowView {
                moved: Some(position),
                position: Some(position),
                ..self
            },
            WindowEvent::Resized(size) => WindowView { resized: Some(size), size: Some(size), ..self },
            WindowEvent::MouseInput { device_id, state, button } => self.input(
                device_id.0,
                GenericInput::MouseButton(button),
                state,
                at,
            ),
            WindowEvent::Destroyed => self.quitting(QuitWindow::DESTROYED),
            WindowEvent::CloseRequested => self.quitting(QuitWindow::CLOSE_REQUESTED),
            WindowEvent::ReceivedCharacter(codepoint) => WindowView {
                text: self.text.push(codepoint),
                ..self
            },
            WindowEvent::KeyboardInput { device_id, input } => {
                let by_position = self.input(
                    device_id.0,
                    GenericInput::ScanCode(input.scancode),
                    input.state,
                    at,
                );
                match input.virtual_keycode {
                    Some(key) => by_position.input(
                        device_id.0,
                        GenericInput::KeyCode(key),
                        input.state,
                        at,
                    ),
                    None => by_position,
                }
            },
            WindowEvent::ModifiersChanged(modifiers) => WindowView {
                inputs: self.inputs.update_modifiers(modifiers),
                ..self
            },
            WindowEvent::MouseWheel { device_id, delta, phase } => WindowView {
                mouse_wheel: self.mouse_wheel.push(delta),
                ..self
            },
            WindowEvent::AxisMotion { device_id, axis, value } => WindowView {
                axis_motion: self.axis_motion.push((axis, value)),
                ..self
            },
            WindowEvent::DroppedFile(path) => WindowView {
                dropped_files: self.dropped_files.insert(path@),
                ..self
            },
            WindowEvent::HoveredFile(path) => WindowView {
                hovered_files: self.hovered_files.insert(path@),
                ..self
            },
            WindowEvent::HoveredFileCancelled => WindowView { hover_cancelled: Some(true), ..self },
            WindowEvent::Ime(ime) => WindowView { ime: self.ime.push(ime), ..self },
            WindowEvent::Occluded(occluded) => WindowView { occluded: Some(occluded), ..self },
            WindowEvent::ScaleFactorChanged { scale_factor } => WindowView {
                scale_factor: Some(scale_factor),
                ..self
            },
            WindowEvent::ThemeChanged(theme) => WindowView { theme: Some(theme), ..self },
            WindowEvent::Touch(touch) => WindowView {
                touch: self.touch.push(
                    IdLessTouch {
                        phase: touch.phase,
                        location: touch.location,
                        force: touch.force,
                        id: touch.id,
                    },
                ),
                ..self
            },
            WindowEvent::TouchpadPressure { device_id, pressure, stage } => WindowView {
                touchpad_pressure: self.touchpad_pressure.push((stage, pressure)),
                ..self
            },
            WindowEvent::CursorMoved { device_id, position } => WindowView {
                cursor_moved: Some(position),
                ..self
            },
            WindowEvent::CursorEntered { device_id } => WindowView { cursor_entered: Some(true), ..self },
            WindowEvent::CursorLeft { device_id } => WindowView { cursor_entered: Some(false), ..self },
            WindowEvent::TouchpadMagnify { device_id, delta, phase } => WindowView {
                touchpad_magnify: self.touchpad_magnify.push((delta, phase)),
                ..self
            },
            WindowEvent::TouchpadRotate { device_id, delta, phase } => WindowView {
                touchpad_rotate: self.touchpad_rotate.push((delta, phase)),
                ..self
            },
            WindowEvent::SmartMagnify { device_id } => WindowView {
                smart_magnify: Some(
                    counted_once_more(
                        match self.smart_magnify {
                            Some(count) => count,
                            None => 0,
                        },
                    ),
                ),
                ..self
            },
        }
    }

    /// What is left when a step has ended: the position and the size of the
    /// window, the inputs that are held and the modifier keys that are
    /// down. Everything else is forgotten, and so are the devices' shares.
    pub open spec fn clear(self) -> Self {
        WindowView {
            position: self.position,
            size: self.size,
            inputs: self.inputs.clear(),
            inputs_with_id: self.inputs_with_id.map_values(|inputs: InputDataView| inputs.clear()),
            ..Self::empty()
        }
    }
}

/// What is gathered about one window during a step.
pub struct WindowCallbackData {
    pub position: Option<PhysicalPosition<i32>>,
    pub size: Option<PhysicalSize<u32>>,
    pub focused: Option<bool>,
    pub occluded: Option<bool>,
    pub moved: Option<PhysicalPosition<i32>>,
    pub resized: Option<PhysicalSize<u32>>,
    pub cursor_state: Option<CursorState>,
    pub cursor_entered: Option<bool>,
    pub cursor_moved: Option<PhysicalPosition<Real64>>,
    pub quit: Option<QuitWindow>,
    pub scale_factor: Option<Real64>,
    pub theme: Option<Theme>,
    pub hover_cancelled: Option<bool>,
    pub smart_magnify: Option<usize>,
    pub mouse_wheel: Vec<MouseScrollDelta>,
    pub text: Vec<char>,
    pub ime: Vec<Ime>,
    pub touch: Vec<IdLessTouch>,
    pub touchpad_pressure: Vec<(i64, Real32)>,
    pub touchpad_magnify: Vec<(Real64, TouchPhase)>,
    pub touchpad_rotate: Vec<(Real32, TouchPhase)>,
    pub axis_motion: Vec<(AxisId, Real64)>,
    pub hovered_files: AHashSet<String>,
    pub dropped_files: AHashSet<String>,
    pub inputs: InputData,
    pub inputs_with_id: InputDataWithId,
    pub with_id: DefaultAHashMap<WindowDeviceData>,
}

impl View for WindowCallbackData {
    type V = WindowView;

    open spec fn view(&self) -> WindowView {
        WindowView {
            position: self.position,
            size: self.size,
            focused: self.focused,
            occluded: self.occluded,
            moved: self.moved,
            resized: self.resized,
            cursor_state: self.cursor_state,
            cursor_entered: self.cursor_entered,
            cursor_moved: self.cursor_moved,
            quit: self.quit,
            scale_factor: self.scale_factor,
            theme: self.theme,
            hover_cancelled: self.hover_cancelled,
            smart_magnify: self.smart_magnify,
            mouse_wheel: self.mouse_wheel@,
            text: self.text@,
            ime: self.ime@,
            touch: self.touch@,
            touchpad_pressure: self.touchpad_pressure@,
            touchpad_magnify: self.touchpad_magnify@,
            touchpad_rotate: self.touchpad_rotate@,
            axis_motion: self.axis_motion@,
            hovered_files: texts(self.hovered_files),
            dropped_files: texts(self.dropped_files),
            inputs: self.inputs@,
            inputs_with_id: self.inputs_with_id@,
            with_id: self.with_id@.map_values(|share: WindowDeviceData| share@),
        }
    }
}

impl Default for WindowCallbackData {
    fn default() -> (data: Self)
        ensures
            data.wf(),
            data@ == WindowView::empty(),
    {
        let data = WindowCallbackData {
            position: None,
            size: None,
            focused: None,
            occluded: None,
            moved: None,
            resized: None,
            cursor_state: None,
            cursor_entered: None,
            cursor_moved: None,
            quit: None,
            scale_factor: None,
            theme: None,
            hover_cancelled: None,
            smart_magnify: None,
            mouse_wheel: Vec::new(),
            text: Vec::new(),
            ime: Vec::new(),
            touch: Vec::new(),
            touchpad_pressure: Vec::new(),
            touchpad_magnify: Vec::new(),
            touchpad_rotate: Vec::new(),
            axis_motion: Vec::new(),
            hovered_files: texts_new(),
            dropped_files: texts_new(),
            inputs: InputData::default(),
            inputs_with_id: InputDataWithId::new(),
            with_id: DefaultAHashMap::new(),
        };
        assert(data@.with_id =~= Map::<u64, WindowDeviceView>::empty());
        data
    }
}

/// A copy of a list of reports of an input method.
fn copied_reports(list: &Vec<Ime>) -> (copy: Vec<Ime>)
    ensures
        copy@ == list@,
{
    let mut copy: Vec<Ime> = Vec::new();
    let mut i: usize = 0;
    while i < list.len()
        invariant
            i <= list@.len(),
            copy@ == list@.take(i as int),
        decreases list@.len() - i,
    {
        copy.push(list[i].clone());
        assert(copy@ =~= list@.take(i + 1));
        i += 1;
    }
    assert(list@.take(i as int) =~= list@);
    copy
}

impl Clone for WindowCallbackData {
    /// A second buffer that holds what this one holds.
    fn clone(&self) -> (copy: Self)
        ensures
            self.wf() ==> copy.wf() && copy@ == self@,
    {
        let copy = WindowCallbackData {
            position: self.position,
            size: self.size,
            focused: self.focused,
            occluded: self.occluded,
            moved: self.moved,
            resized: self.resized,
            cursor_state: self.cursor_state,
            cursor_entered: self.cursor_entered,
            cursor_moved: self.cursor_moved,
            quit: self.quit,
            scale_factor: self.scale_factor,
            theme: self.theme,
            hover_cancelled: self.hover_cancelled,
            smart_magnify: self.smart_magnify,
            mouse_wheel: copied(&self.mouse_wheel),
            text: copied(&self.text),
            ime: copied_reports(&self.ime),
            touch: copied(&self.touch),
            touchpad_pressure: copied(&self.touchpad_pressure),
            touchpad_magnify: copied(&self.touchpad_magnify),
            touchpad_rotate: copied(&self.touchpad_rotate),
            axis_motion: copied(&self.axis_motion),
            hovered_files: texts_clone(&self.hovered_files),
            dropped_files: texts_clone(&self.dropped_files),
            inputs: self.inputs.clone(),
            inputs_with_id: self.inputs_with_id.clone(),
            with_id: self.with_id.clone(),
        };
        proof {
            if self.wf() {
                assert(copy@.with_id =~= self@.with_id);
            }
        }
        copy
    }
}

impl Twin for WindowCallbackData {
    open spec fn alike(&self, other: &Self) -> bool {
        self.wf() ==> other.wf() && other@ == self@
    }

    fn twin(&self) -> (copy: Self) {
        self.clone()
    }
}

impl Blank for WindowCallbackData {
    open spec fn is_blank(&self) -> bool {
        self.wf() && self@ == WindowView::empty()
    }

    fn blank() -> (fresh: Self) {
        WindowCallbackData::default()
    }
}

impl<C, G> Blank for WindowCallbacks<C, G> {
    open spec fn is_blank(&self) -> bool {
        &&& self.wf()
        &&& self.fields@ == Map::<u64, Option<G>>::empty()
        &&& self.inputs.is_blank()
        &&& self.inputs_with_id@ == Map::<u64, InputCallbacks<C>>::empty()
        &&& self.with_id@ == Map::<u64, Option<G>>::empty()
        &&& self.hovered_files_with_key@ == Map::<Seq<char>, Option<C>>::empty()
        &&& self.dropped_files_with_key@ == Map::<Seq<char>, Option<C>>::empty()
    }

    fn blank() -> (fresh: Self) {
        WindowCallbacks::new()
    }
}

impl WindowCallbackData {
    /// The per-device trackers and shares are in order.
    pub open spec fn wf(&self) -> bool {
        &&& self.inputs_with_id.wf()
        &&& self.with_id.wf()
        &&& self.with_id.default_value().is_blank()
    }

    /// Registers an input of `device` as pressed or released, for the
    /// window as a whole and for the device.
    fn input_at(&mut self, device: u64, input: GenericInput, state: ElementState, at: Instant)
        requires
            old(self).wf(),
        ensures
            final(self).wf(),
            final(self)@ == old(self)@.input(device, input, state, at),
    {
        self.inputs.update_at(input, state, at);
        self.inputs_with_id.update_at(device, input, state, at);
    }

    /// Notes the reason `flag` for the window to go away.
    fn quitting(&mut self, flag: u8)
        requires
            old(self).wf(),
        ensures
            final(self).wf(),
            final(self)@ == old(self)@.quitting(flag),
    {
        let mut quit = match self.quit {
            Some(quit) => quit,
            None => QuitWindow::empty(),
        };
        quit.insert(QuitWindow { bits: flag });
        self.quit = Some(quit);
    }

    /// Takes in one event. Inputs that go down do so at the instant `at`.
    pub fn update_at(&mut self, event: &WindowEvent, at: Instant)
        requires
            old(self).wf(),
        ensures
            final(self).wf(),
            final(self)@ == old(self)@.apply(*event, at),
    {
        self.gather_at(event, at);
        let ghost gathered = self@;
        match sharing_device_of(event) {
            Some(device) => {
                let share = self.with_id.get_mut(device);
                share.update(event);
                proof {
                    assert(self@.with_id =~= gathered.with_id.insert(
                        device,
                        gathered.share_of(device).apply(*event),
                    ));
                }
            },
            None => {},
        }
    }

    /// Takes in one event for the window as a whole.
    fn gather_at(&mut self, event: &WindowEvent, at: Instant)
        requires
            old(self).wf(),
        ensures
            final(self).wf(),
            final(self)@ == old(self)@.gather(*event, at),
    {
        match event {
            WindowEvent::Focused(focused) => {
                self.focused = Some(*focused);
            },
            WindowEvent::Moved(position) => {
                self.moved = Some(*position);
                self.position = Some(*position);
            },
            WindowEvent::Resized(size) => {
                self.resized = Some(*size);
                self.size = Some(*size);
            },
            WindowEvent::MouseInput { device_id, state, button } => {
                self.input_at(device_id.0, GenericInput::MouseButton(*button), *state, at);
            },
            WindowEvent::Destroyed => {
                self.quitting(QuitWindow::DESTROYED);
            },
            WindowEvent::CloseRequested => {
                self.quitting(QuitWindow::CLOSE_REQUESTED);
            },
            WindowEvent::ReceivedCharacter(codepoint) => {
                self.text.push(*codepoint);
            },
            WindowEvent::KeyboardInput { device_id, input } => {
                self.input_at(device_id.0, GenericInput::ScanCode(input.scancode), input.state, at);
                match input.virtual_keycode {
                    Some(key) => {
                        self.input_at(device_id.0, GenericInput::KeyCode(key), input.state, at);
                    },
                    None => {},
                }
            },
            WindowEvent::ModifiersChanged(modifiers) => {
                self.inputs.update_modifiers(*modifiers);
            },
            WindowEvent::MouseWheel { device_id, delta, phase } => {
                self.mouse_wheel.push(*delta);
            },
            WindowEvent::AxisMotion { device_id, axis, value } => {
                self.axis_motion.push((*axis, *value));
            },
            WindowEvent::DroppedFile(path) => {
                texts_insert(&mut self.dropped_files, path.clone());
            },
            WindowEvent::HoveredFile(path) => {
                texts_insert(&mut self.hovered_files, path.clone());
            },
            WindowEvent::HoveredFileCancelled => {
                self.hover_cancelled = Some(true);
            },
            WindowEvent::Ime(ime) => {
                self.ime.push(ime.clone());
            },
            WindowEvent::Occluded(occluded) => {
                self.occluded = Some(*occluded);
            },
            WindowEvent::ScaleFactorChanged { scale_factor } => {
                self.scale_factor = Some(*scale_factor);
            },
            WindowEvent::ThemeChanged(theme) => {
                self.theme = Some(*theme);
            },
            WindowEvent::Touch(touch) => {
                self.touch.push(
                    IdLessTouch {
                        phase: touch.phase,
                        location: touch.location,
                        force: touch.force,
                        id: touch.id,
                    },
                );
            },
            WindowEvent::TouchpadPressure { device_id, pressure, stage } => {
                self.touchpad_pressure.push((*stage, *pressure));
            },
            WindowEvent::CursorMoved { device_id, position } => {
                self.cursor_moved = Some(*position);
            },
            WindowEvent::CursorEntered { device_id } => {
                self.cursor_entered = Some(true);
            },
            WindowEvent::CursorLeft { device_id } => {
                self.cursor_entered = Some(false);
            },
            WindowEvent::TouchpadMagnify { device_id, delta, phase } => {
                self.touchpad_magnify.push((*delta, *phase));
            },
            WindowEvent::TouchpadRotate { device_id, delta, phase } => {
                self.touchpad_rotate.push((*delta, *phase));
            },
            WindowEvent::SmartMagnify { device_id } => {
                let count: usize = match self.smart_magnify {
                    Some(count) => count,
                    None => 0,
                };
                self.smart_magnify = Some(if count == usize::MAX { 0 } else { count + 1 });
            },
        }
    }

    /// Takes in one event, now.
    pub fn update(&mut self, event: &WindowEvent)
        requires
            old(self).wf(),
        ensures
            final(self).wf(),
            exists|at: Instant| final(self)@ == old(self)@.apply(*event, at),
    {
        let at = clock::now();
        self.update_at(event, at);
    }

    /// Ends a step: forgets everything but the position and the size of the
    /// window, the inputs that are held and the modifier keys that are
    /// down.
    pub fn clear(&mut self)
        requires
            old(self).wf(),
        ensures
            final(self).wf(),
            final(self)@ == old(self)@.clear(),
    {
        self.focused = None;
        self.occluded = None;
        self.moved = None;
        self.resized = None;
        self.cursor_state = None;
        self.cursor_entered = None;
        self.cursor_moved = None;
        self.quit = None;
        self.scale_factor = None;
        self.theme = None;
        self.hover_cancelled = None;
        self.smart_magnify = None;
        self.mouse_wheel.clear();
        self.text.clear();
        self.ime.clear();
        self.touch.clear();
        self.touchpad_pressure.clear();
        self.touchpad_magnify.clear();
        self.touchpad_rotate.clear();
        self.axis_motion.clear();
        texts_clear(&mut self.hovered_files);
        texts_clear(&mut self.dropped_files);
        self.inputs.clear();
        self.inputs_with_id.clear();
        self.with_id.clear();
        proof {
            assert(self@.with_id =~= Map::<u64, WindowDeviceView>::empty());
            assert(self@.inputs_with_id =~= old(self)@.inputs_with_id.map_values(
                |inputs: InputDataView| inputs.clear(),
            ));
        }
    }
}

/// The things that are gathered about a window and that a callback can be
/// registered for, in the order in which their callbacks are called.
#[derive(Clone, Copy, Debug, PartialEq, Eq, Hash, Structural)]
pub enum WindowField {
    Position,
    Size,
    Focused,
    Occluded,
    Moved,
    Resized,
    CursorState,
    CursorEntered,
    CursorMoved,
    Quit,
    ScaleFactor,
    Theme,
    HoverCancelled,
    MouseWheel,
    SmartMagnify,
    Text,
    Ime,
    Touch,
    TouchpadPressure,
    TouchpadMagnify,
    TouchpadRotate,
    AxisMotion,
    HoveredFiles,
    DroppedFiles,
}

/// The number of things that a window callback can be registered for.
pub const WINDOW_FIELDS: u64 = 24;

/// The place of the field for the files that hover over the window.
pub const HOVERED_FILES: u64 = 22;

/// The place of the field for the files that were dropped on the window.
pub const DROPPED_FILES: u64 = 23;

impl WindowField {
    /// The place of the field in the order of the fields.
    pub open spec fn index_of(self) -> u64 {
        match self {
            WindowField::Position => 0,
            WindowField::Size => 1,
            WindowField::Focused => 2,
            WindowField::Occluded => 3,
            WindowField::Moved => 4,
            WindowField::Resized => 5,
            WindowField::CursorState => 6,
            WindowField::CursorEntered => 7,
            WindowField::CursorMoved => 8,
            WindowField::Quit => 9,
            WindowField::ScaleFactor => 10,
            WindowField::Theme => 11,
            WindowField::HoverCancelled => 12,
            WindowField::MouseWheel => 13,
            WindowField::SmartMagnify => 14,
            WindowField::Text => 15,
            WindowField::Ime => 16,
            WindowField::Touch => 17,
            WindowField::TouchpadPressure => 18,
            WindowField::TouchpadMagnify => 19,
            WindowField::TouchpadRotate => 20,
            WindowField::AxisMotion => 21,
            WindowField::HoveredFiles => 22,
            WindowField::DroppedFiles => 23,
        }
    }

    /// The field at a place in the order of the fields.
    pub open spec fn at(index: u64) -> WindowField {
        if index == 0 {
            WindowField::Position
        } else if index == 1 {
            WindowField::Size
        } else if index == 2 {
            WindowField::Focused
        } else if index == 3 {
            WindowField::Occluded
        } else if index == 4 {
            WindowField::Moved
        } else if index == 5 {
            WindowField::Resized
        } else if index == 6 {
            WindowField::CursorState
        } else if index == 7 {
            WindowField::CursorEntered
        } else if index == 8 {
            WindowField::CursorMoved
        } else if index == 9 {
            WindowField::Quit
        } else if index == 10 {
            WindowField::ScaleFactor
        } else if index == 11 {
            WindowField::Theme
        } else if index == 12 {
            WindowField::HoverCancelled
        } else if index == 13 {
            WindowField::MouseWheel
        } else if index == 14 {
            WindowField::SmartMagnify
        } else if index == 15 {
            WindowField::Text
        } else if index == 16 {
            WindowField::Ime
        } else if index == 17 {
            WindowField::Touch
        } else if index == 18 {
            WindowField::TouchpadPressure
        } else if index == 19 {
            WindowField::TouchpadMagnify
        } else if index == 20 {
            WindowField::TouchpadRotate
        } else if index == 21 {
            WindowField::AxisMotion
        } else if index == 22 {
            WindowField::HoveredFiles
        } else {
            WindowField::DroppedFiles
        }
    }

    /// Every field has its own place among the first `WINDOW_FIELDS`.
    pub proof fn places_are_distinct(self, other: WindowField)
        ensures
            self.index_of() < WINDOW_FIELDS,
            WindowField::at(self.index_of()) == self,
            self.index_of() == other.index_of() ==> self == other,
    {
    }

    /// Computes the place of the field in the order of the fields.
    pub fn index(self) -> (index: u64)
        ensures
            index == self.index_of(),
            index < WINDOW_FIELDS,
    {
        match self {
            WindowField::Position => 0,
            WindowField::Size => 1,
            WindowField::Focused => 2,
            WindowField::Occluded => 3,
            WindowField::Moved => 4,
            WindowField::Resized => 5,
            WindowField::CursorState => 6,
            WindowField::CursorEntered => 7,
            WindowField::CursorMoved => 8,
            WindowField::Quit => 9,
            WindowField::ScaleFactor => 10,
            WindowField::Theme => 11,
            WindowField::HoverCancelled => 12,
            WindowField::MouseWheel => 13,
            WindowField::SmartMagnify => 14,
            WindowField::Text => 15,
            WindowField::Ime => 16,
            WindowField::Touch => 17,
            WindowField::TouchpadPressure => 18,
            WindowField::TouchpadMagnify => 19,
            WindowField::TouchpadRotate => 20,
            WindowField::AxisMotion => 21,
            WindowField::HoveredFiles => 22,
            WindowField::DroppedFiles => 23,
        }
    }
}

impl WindowView {
    /// Whether something has been gathered for the field, so that its
    /// callback is due.
    pub open spec fn fires(self, field: WindowField) -> bool {
        match field {
            WindowField::Position => self.position is Some,
            WindowField::Size => self.size is Some,
            WindowField::Focused => self.focused is Some,
            WindowField::Occluded => self.occluded is Some,
            WindowField::Moved => self.moved is Some,
            WindowField::Resized => self.resized is Some,
            WindowField::CursorState => self.cursor_state is Some,
            WindowField::CursorEntered => self.cursor_entered is Some,
            WindowField::CursorMoved => self.cursor_moved is Some,
            WindowField::Quit => self.quit is Some,
            WindowField::ScaleFactor => self.scale_factor is Some,
            WindowField::Theme => self.theme is Some,
            WindowField::HoverCancelled => self.hover_cancelled is Some,
            WindowField::MouseWheel => self.mouse_wheel.len() > 0,
            WindowField::SmartMagnify => self.smart_magnify is Some,
            WindowField::Text => self.text.len() > 0,
            WindowField::Ime => self.ime.len() > 0,
            WindowField::Touch => self.touch.len() > 0,
            WindowField::TouchpadPressure => self.touchpad_pressure.len() > 0,
            WindowField::TouchpadMagnify => self.touchpad_magnify.len() > 0,
            WindowField::TouchpadRotate => self.touchpad_rotate.len() > 0,
            WindowField::AxisMotion => self.axis_motion.len() > 0,
            WindowField::HoveredFiles => self.hovered_files != Set::<Seq<char>>::empty(),
            WindowField::DroppedFiles => self.dropped_files != Set::<Seq<char>>::empty(),
        }
    }

    /// The callbacks that are due for the fields from place `from` up to,
    /// but not including, place `upto`, in the order of the fields: a
    /// field's callback is due if something has been gathered for the field
    /// and a callback is registered for it.
    pub open spec fn field_plan<G>(self, callbacks: Map<u64, Option<G>>, from: nat, upto: nat) -> Seq<G>
        decreases upto,
    {
        if upto <= from {
            Seq::empty()
        } else {
            let earlier = self.field_plan(callbacks, from, (upto - 1) as nat);
            let index = (upto - 1) as u64;
            if self.fires(WindowField::at(index)) && callbacks.dom().contains(index)
                && callbacks[index] is Some {
                earlier.push(callbacks[index]->0)
            } else {
                earlier
            }
        }
    }

    /// After a step has ended, only the position and the size of the window
    /// can make a callback due at once.
    pub proof fn clear_leaves_only_persistent_fields(self, field: WindowField)
        ensures
            self.clear().fires(field) ==> (field == WindowField::Position || field == WindowField::Size)
                && self.fires(field),
            self.clear().text == Seq::<char>::empty(),
            self.clear().position == self.position,
            self.clear().size == self.size,
    {
    }
}

/// The callbacks for what is gathered about a window.
pub struct WindowCallbacks<C, G> {
    /// For each field, by its place, the callback that is called when
    /// something has been gathered for the field.
    pub fields: DefaultAHashMap<Option<G>>,
    /// The callbacks bound to input combinations of the window.
    pub inputs: InputCallbacks<C>,
    /// The callbacks bound to input combinations of single devices.
    pub inputs_with_id: DefaultAHashMap<InputCallbacks<C>>,
    /// For single devices, the callback that is called when something has
    /// been gathered for the device.
    pub with_id: DefaultAHashMap<Option<G>>,
    /// For single files, the callback that is called when the file hovers
    /// over the window.
    pub hovered_files_with_key: TextCallbacks<C>,
    /// For single files, the callback that is called when the file was
    /// dropped on the window.
    pub dropped_files_with_key: TextCallbacks<C>,
}

impl<C, G> WindowCallbacks<C, G> {
    /// The maps are in order, and a field without a callback has none.
    pub open spec fn wf(&self) -> bool {
        &&& self.fields.wf()
        &&& self.fields.default_value() is None
        &&& self.inputs.wf()
        &&& self.inputs_with_id.wf()
        &&& self.inputs_with_id.default_value().is_blank()
        &&& forall|device: u64|
            self.inputs_with_id@.dom().contains(device) ==> (#[trigger] self.inputs_with_id@[device]).wf()
        &&& self.with_id.wf()
        &&& self.with_id.default_value() is None
        &&& self.hovered_files_with_key.wf()
        &&& self.dropped_files_with_key.wf()
    }

    /// The callback that is registered for the device, if there is one.
    pub open spec fn callback_for_device(&self, device: DeviceId) -> Option<G> {
        if self.with_id@.dom().contains(device.0) {
            self.with_id@[device.0]
        } else {
            None
        }
    }

    /// The callback that is registered for the field, if there is one.
    pub open spec fn callback_for(&self, field: WindowField) -> Option<G> {
        if self.fields@.dom().contains(field.index_of()) {
            self.fields@[field.index_of()]
        } else {
            None
        }
    }

    /// No callback at all.
    pub fn new() -> (callbacks: Self)
        ensures
            callbacks.wf(),
            callbacks.fields@ == Map::<u64, Option<G>>::empty(),
            callbacks.inputs.is_blank(),
            callbacks.inputs_with_id@ == Map::<u64, InputCallbacks<C>>::empty(),
            callbacks.with_id@ == Map::<u64, Option<G>>::empty(),
            callbacks.hovered_files_with_key@ == Map::<Seq<char>, Option<C>>::empty(),
            callbacks.dropped_files_with_key@ == Map::<Seq<char>, Option<C>>::empty(),
    {
        WindowCallbacks {
            fields: DefaultAHashMap::new(),
            inputs: InputCallbacks::default(),
            inputs_with_id: DefaultAHashMap::new(),
            with_id: DefaultAHashMap::new(),
            hovered_files_with_key: TextCallbacks::new(),
            dropped_files_with_key: TextCallbacks::new(),
        }
    }

    /// Registers the callback for the field. A callback that was registered
    /// for the field before is replaced and handed back.
    pub fn on(&mut self, field: WindowField, callback: G) -> (previous: Option<G>)
        requires
            old(self).wf(),
        ensures
            final(self).wf(),
            final(self).callback_for(field) == Some(callback),
            forall|other: WindowField|
                other != field ==> final(self).callback_for(other) == old(self).callback_for(other),
            previous == old(self).callback_for(field),
            final(self).inputs == old(self).inputs,
            final(self).inputs_with_id == old(self).inputs_with_id,
            final(self).with_id == old(self).with_id,
            final(self).hovered_files_with_key == old(self).hovered_files_with_key,
            final(self).dropped_files_with_key == old(self).dropped_files_with_key,
    {
        proof {
            assert forall|other: WindowField| other != field implies other.index_of()
                != field.index_of() by {
                other.places_are_distinct(field);
            }
        }
        match self.fields.insert(field.index(), Some(callback)) {
            Some(previous) => previous,
            None => None,
        }
    }
}

impl<C, G> WindowCallbacks<C, G> {
    /// Registers the callback that is called when something has been
    /// gathered for the device. A callback that was registered for the
    /// device before is replaced and handed back.
    pub fn on_device(&mut self, device: DeviceId, callback: G) -> (previous: Option<G>)
        requires
            old(self).wf(),
        ensures
            final(self).wf(),
            final(self).callback_for_device(device) == Some(callback),
            forall|other: DeviceId|
                other != device ==> final(self).callback_for_device(other) == old(
                    self,
                ).callback_for_device(other),
            previous == old(self).callback_for_device(device),
            final(self).fields == old(self).fields,
            final(self).inputs == old(self).inputs,
            final(self).inputs_with_id == old(self).inputs_with_id,
            final(self).hovered_files_with_key == old(self).hovered_files_with_key,
            final(self).dropped_files_with_key == old(self).dropped_files_with_key,
    {
        match self.with_id.insert(device.0, Some(callback)) {
            Some(previous) => previous,
            None => None,
        }
    }

    /// Registers the callback that is called when the file at `path` hovers
    /// over the window. A callback that was registered for the path before
    /// is replaced and handed back.
    pub fn hovered_files_with_key(&mut self, path: String, callback: C) -> (previous: Option<C>)
        requires
            old(self).wf(),
        ensures
            final(self).wf(),
            final(self).hovered_files_with_key@ == old(self).hovered_files_with_key@.insert(
                path@,
                Some(callback),
            ),
            previous == old(self).hovered_files_with_key.callback_for(path@),
            final(self).fields == old(self).fields,
            final(self).inputs == old(self).inputs,
            final(self).inputs_with_id == old(self).inputs_with_id,
            final(self).with_id == old(self).with_id,
            final(self).dropped_files_with_key == old(self).dropped_files_with_key,
    {
        self.hovered_files_with_key.insert(path, callback)
    }

    /// Registers the callback that is called when the file at `path` was
    /// dropped on the window. A callback that was registered for the path
    /// before is replaced and handed back.
    pub fn dropped_files_with_key(&mut self, path: String, callback: C) -> (previous: Option<C>)
        requires
            old(self).wf(),
        ensures
            final(self).wf(),
            final(self).dropped_files_with_key@ == old(self).dropped_files_with_key@.insert(
                path@,
                Some(callback),
            ),
            previous == old(self).dropped_files_with_key.callback_for(path@),
            final(self).fields == old(self).fields,
            final(self).inputs == old(self).inputs,
            final(self).inputs_with_id == old(self).inputs_with_id,
            final(self).with_id == old(self).with_id,
            final(self).hovered_files_with_key == old(self).hovered_files_with_key,
    {
        self.dropped_files_with_key.insert(path, callback)
    }
}

/// Calling the callbacks that are registered for single files of `files`,
/// file after file in some order, may turn the state `before` into `after`.
pub open spec fn files_dispatched<D, C: Callback<D>>(
    files: Set<Seq<char>>,
    keyed: Map<Seq<char>, Option<C>>,
    before: D,
    after: D,
) -> bool {
    exists|listing: Seq<Seq<char>>|
        listing.no_duplicates() && listing.to_set() == files && #[trigger] effects(
            keyed_plan(listing, keyed),
            before,
            after,
        )
}

/// Calls the callbacks that are registered for single files of `files`.
fn call_for_files<D, C: Callback<D>>(state: &mut D, files: &AHashSet<String>, keyed: &TextCallbacks<C>)
    requires
        keyed.wf(),
    ensures
        files_dispatched(texts(*files), keyed@, *old(state), *final(state)),
{
    let ghost start = *state;
    let listing = texts_list(files);
    let ghost paths = listing@.map_values(|text: String| text@);
    let mut i: usize = 0;
    while i < listing.len()
        invariant
            i <= listing@.len(),
            keyed.wf(),
            paths == listing@.map_values(|text: String| text@),
            effects(keyed_plan(paths.take(i as int), keyed@), start, *state),
        decreases listing@.len() - i,
    {
        let ghost between = *state;
        assert(paths.take(i + 1).drop_last() =~= paths.take(i as int));
        assert(paths.take(i + 1).last() == listing@[i as int]@);
        match keyed.get(&listing[i]) {
            Some(callback) => {
                callback.call(state);
                proof {
                    effects_extend(keyed_plan(paths.take(i as int), keyed@), *callback, start, between, *state);
                }
            },
            None => {},
        }
        i += 1;
    }
    assert(paths.take(i as int) =~= paths);
}

impl<C, G> Default for WindowCallbacks<C, G> {
    fn default() -> (callbacks: Self)
        ensures
            callbacks.wf(),
            callbacks.fields@ == Map::<u64, Option<G>>::empty(),
            callbacks.inputs.is_blank(),
            callbacks.inputs_with_id@ == Map::<u64, InputCallbacks<C>>::empty(),
            callbacks.with_id@ == Map::<u64, Option<G>>::empty(),
            callbacks.hovered_files_with_key@ == Map::<Seq<char>, Option<C>>::empty(),
            callbacks.dropped_files_with_key@ == Map::<Seq<char>, Option<C>>::empty(),
    {
        WindowCallbacks::new()
    }
}

impl WindowCallbackData {
    /// Whether something has been gathered for the field.
    pub fn fires(&self, field: WindowField) -> (due: bool)
        ensures
            due == self@.fires(field),
    {
        match field {
            WindowField::Position => self.position.is_some(),
            WindowField::Size => self.size.is_some(),
            WindowField::Focused => self.focused.is_some(),
            WindowField::Occluded => self.occluded.is_some(),
            WindowField::Moved => self.moved.is_some(),
            WindowField::Resized => self.resized.is_some(),
            WindowField::CursorState => self.cursor_state.is_some(),
            WindowField::CursorEntered => self.cursor_entered.is_some(),
            WindowField::CursorMoved => self.cursor_moved.is_some(),
            WindowField::Quit => self.quit.is_some(),
            WindowField::ScaleFactor => self.scale_factor.is_some(),
            WindowField::Theme => self.theme.is_some(),
            WindowField::HoverCancelled => self.hover_cancelled.is_some(),
            WindowField::MouseWheel => self.mouse_wheel.len() > 0,
            WindowField::SmartMagnify => self.smart_magnify.is_some(),
            WindowField::Text => self.text.len() > 0,
            WindowField::Ime => self.ime.len() > 0,
            WindowField::Touch => self.touch.len() > 0,
            WindowField::TouchpadPressure => self.touchpad_pressure.len() > 0,
            WindowField::TouchpadMagnify => self.touchpad_magnify.len() > 0,
            WindowField::TouchpadRotate => self.touchpad_rotate.len() > 0,
            WindowField::AxisMotion => self.axis_motion.len() > 0,
            WindowField::HoveredFiles => !texts_is_empty(&self.hovered_files),
            WindowField::DroppedFiles => !texts_is_empty(&self.dropped_files),
        }
    }

    /// The files that hover over the window, each once, in no particular
    /// order.
    pub fn hovered_files(&self) -> (files: Vec<String>)
        ensures
            files@.map_values(|text: String| text@).no_duplicates(),
            files@.map_values(|text: String| text@).to_set() == self@.hovered_files,
    {
        texts_list(&self.hovered_files)
    }

    /// The files that were dropped on the window, each once, in no
    /// particular order.
    pub fn dropped_files(&self) -> (files: Vec<String>)
        ensures
            files@.map_values(|text: String| text@).no_duplicates(),
            files@.map_values(|text: String| text@).to_set() == self@.dropped_files,
    {
        texts_list(&self.dropped_files)
    }

    /// Whether the cursor of the device entered (or left) the window, in this step.
    pub fn cursor_entered_with_id(&self, device: DeviceId) -> (gathered: Option<bool>)
        requires
            self.wf(),
        ensures
            gathered == self@.share_of(device.0).cursor_entered,
    {
        self.with_id.get(device.0).cursor_entered
    }

    /// Where the cursor of the device moved last, in this step.
    pub fn cursor_moved_with_id(&self, device: DeviceId) -> (gathered: Option<PhysicalPosition<Real64>>)
        requires
            self.wf(),
        ensures
            gathered == self@.share_of(device.0).cursor_moved,
    {
        self.with_id.get(device.0).cursor_moved
    }

    /// How often the device asked for a smart magnification, in this step.
    pub fn smart_magnify_with_id(&self, device: DeviceId) -> (gathered: Option<usize>)
        requires
            self.wf(),
        ensures
            gathered == self@.share_of(device.0).smart_magnify,
    {
        self.with_id.get(device.0).smart_magnify
    }

    /// The turns of the mouse wheel of the device, in this step, in the order in which they came.
    pub fn mouse_wheel_with_id(&self, device: DeviceId) -> (gathered: &Vec<MouseScrollDelta>)
        requires
            self.wf(),
        ensures
            gathered@ == self@.share_of(device.0).mouse_wheel,
    {
        &self.with_id.get(device.0).mouse_wheel
    }

    /// The touches on the touch screen of the device, in this step, in the order in which they came.
    pub fn touch_with_id(&self, device: DeviceId) -> (gathered: &Vec<IdLessTouch>)
        requires
            self.wf(),
        ensures
            gathered@ == self@.share_of(device.0).touch,
    {
        &self.with_id.get(device.0).touch
    }

    /// The presses on the touchpad of the device, in this step, in the order in which they came.
    pub fn touchpad_pressure_with_id(&self, device: DeviceId) -> (gathered: &Vec<(i64, Real32)>)
        requires
            self.wf(),
        ensures
            gathered@ == self@.share_of(device.0).touchpad_pressure,
    {
        &self.with_id.get(device.0).touchpad_pressure
    }

    /// The magnifying gestures on the touchpad of the device, in this step, in the order in which they came.
    pub fn touchpad_magnify_with_id(&self, device: DeviceId) -> (gathered: &Vec<(Real64, TouchPhase)>)
        requires
            self.wf(),
        ensures
            gathered@ == self@.share_of(device.0).touchpad_magnify,
    {
        &self.with_id.get(device.0).touchpad_magnify
    }

    /// The rotating gestures on the touchpad of the device, in this step, in the order in which they came.
    pub fn touchpad_rotate_with_id(&self, device: DeviceId) -> (gathered: &Vec<(Real32, TouchPhase)>)
        requires
            self.wf(),
        ensures
            gathered@ == self@.share_of(device.0).touchpad_rotate,
    {
        &self.with_id.get(device.0).touchpad_rotate
    }

    /// The movements of the axes of the device, in this step, in the order in which they came.
    pub fn axis_motion_with_id(&self, device: DeviceId) -> (gathered: &Vec<(AxisId, Real64)>)
        requires
            self.wf(),
        ensures
            gathered@ == self@.share_of(device.0).axis_motion,
    {
        &self.with_id.get(device.0).axis_motion
    }

    /// The share of the window that has been gathered for a device; an
    /// empty share, for a device that has sent nothing in this step.
    pub fn share_of(&self, device: DeviceId) -> (share: &WindowDeviceData)
        requires
            self.wf(),
        ensures
            share@ == self@.share_of(device.0),
    {
        self.with_id.get(device.0)
    }

    /// Calls the callbacks of the fields from place `from` up to, but not
    /// including, place `upto` that are due.
    fn call_fields<D, G: CallbackWith<D, WindowCallbackData>>(
        &self,
        state: &mut D,
        fields: &DefaultAHashMap<Option<G>>,
        from: u64,
        upto: u64,
    )
        requires
            fields.wf(),
            fields.default_value() is None,
            from <= upto,
        ensures
            effects_with(
                self@.field_plan(fields@, from as nat, upto as nat),
                self,
                *old(state),
                *final(state),
            ),
    {
        let ghost start = *state;
        let mut index: u64 = from;
        while index < upto
            invariant
                from <= index <= upto,
                fields.wf(),
                fields.default_value() is None,
                effects_with(self@.field_plan(fields@, from as nat, index as nat), self, start, *state),
            decreases upto - index,
        {
            let ghost between = *state;
            let field = window_field(index);
            if self.fires(field) {
                match fields.get(index) {
                    Some(callback) => {
                        callback.call_with(state, self);
                        proof {
                            effects_with_extend(
                                self@.field_plan(fields@, from as nat, index as nat),
                                *callback,
                                self,
                                start,
                                between,
                                *state,
                            );
                        }
                    },
                    None => {},
                }
            }
            index += 1;
        }
    }

    /// Calling the callbacks that are due may turn the state `before` into
    /// `after`, in this order: those of the fields before the files; those
    /// for single files that hover, then the one for hovering files as a
    /// whole; those for single files that were dropped, then the one for
    /// dropped files as a whole; those bound to input combinations of the
    /// window; those of the devices for which something has been gathered
    /// (in the order in which the devices were first heard of in this
    /// step); those bound to input combinations of single devices. The
    /// callbacks of fields and of devices are shown what has been gathered.
    pub open spec fn dispatched<D, C: Callback<D>, G: CallbackWith<D, WindowCallbackData>>(
        &self,
        callbacks: &WindowCallbacks<C, G>,
        before: D,
        after: D,
    ) -> bool {
        exists|a: D, b: D, c: D, d: D, first: D, second: D, third: D|
            #![trigger
                files_dispatched(self@.hovered_files, callbacks.hovered_files_with_key@, a, b),
                files_dispatched(self@.dropped_files, callbacks.dropped_files_with_key@, c, d),
                effects(self@.inputs.plan(callbacks.inputs), first, second),
                effects_with(keyed_plan(self.with_id.order(), callbacks.with_id@), self, second, third)]
            effects_with(self@.field_plan(callbacks.fields@, 0, HOVERED_FILES as nat), self, before, a)
                && files_dispatched(self@.hovered_files, callbacks.hovered_files_with_key@, a, b)
                && effects_with(
                self@.field_plan(callbacks.fields@, HOVERED_FILES as nat, DROPPED_FILES as nat),
                self,
                b,
                c,
            ) && files_dispatched(self@.dropped_files, callbacks.dropped_files_with_key@, c, d)
                && effects_with(
                self@.field_plan(callbacks.fields@, DROPPED_FILES as nat, WINDOW_FIELDS as nat),
                self,
                d,
                first,
            ) && effects(self.inputs@.plan(callbacks.inputs), first, second) && effects_with(
                keyed_plan(self.with_id.order(), callbacks.with_id@),
                self,
                second,
                third,
            ) && effects(
                sharded_plan(
                    self.inputs_with_id.order(),
                    self.inputs_with_id.trackers(),
                    callbacks.inputs_with_id@,
                    callbacks.inputs_with_id.default_value(),
                ),
                third,
                after,
            )
    }

    /// Calls the callbacks that are due.
    pub fn call_callbacks<D, C: Callback<D>, G: CallbackWith<D, WindowCallbackData>>(
        &self,
        state: &mut D,
        callbacks: &WindowCallbacks<C, G>,
    )
        requires
            self.wf(),
            callbacks.wf(),
        ensures
            self.dispatched(callbacks, *old(state), *final(state)),
    {
        self.call_fields(state, &callbacks.fields, 0, HOVERED_FILES);
        let ghost a = *state;
        call_for_files(state, &self.hovered_files, &callbacks.hovered_files_with_key);
        let ghost b = *state;
        self.call_fields(state, &callbacks.fields, HOVERED_FILES, DROPPED_FILES);
        let ghost c = *state;
        call_for_files(state, &self.dropped_files, &callbacks.dropped_files_with_key);
        let ghost d = *state;
        self.call_fields(state, &callbacks.fields, DROPPED_FILES, WINDOW_FIELDS);
        let ghost first = *state;
        self.inputs.call_callbacks(state, &callbacks.inputs);
        let ghost second = *state;
        let devices = self.with_id.len();
        let mut i: usize = 0;
        while i < devices
            invariant
                i <= devices,
                devices == self.with_id.order().len(),
                self.wf(),
                callbacks.wf(),
                effects_with(
                    keyed_plan(self.with_id.order().take(i as int), callbacks.with_id@),
                    self,
                    second,
                    *state,
                ),
            decreases devices - i,
        {
            let ghost between = *state;
            assert(self.with_id.order().take(i + 1).drop_last() =~= self.with_id.order().take(i as int));
            let device = self.with_id.key_at(i);
            assert(self.with_id.order().take(i + 1).last() == device);
            match callbacks.with_id.get(device) {
                Some(callback) => {
                    callback.call_with(state, self);
                    proof {
                        effects_with_extend(
                            keyed_plan(self.with_id.order().take(i as int), callbacks.with_id@),
                            *callback,
                            self,
                            second,
                            between,
                            *state,
                        );
                    }
                },
                None => {},
            }
            i += 1;
        }
        assert(self.with_id.order().take(i as int) =~= self.with_id.order());
        let ghost third = *state;
        self.inputs_with_id.call_callbacks(state, &callbacks.inputs_with_id);
        assert(effects(self@.inputs.plan(callbacks.inputs), first, second));
        assert(effects_with(keyed_plan(self.with_id.order(), callbacks.with_id@), self, second, third));
        assert(files_dispatched(self@.hovered_files, callbacks.hovered_files_with_key@, a, b));
        assert(files_dispatched(self@.dropped_files, callbacks.dropped_files_with_key@, c, d));
    }
}

/// Finds the field at a place in the order of the fields.
pub fn window_field(index: u64) -> (field: WindowField)
    ensures
        field == WindowField::at(index),
{
    if index == 0 {
        WindowField::Position
    } else if index == 1 {
        WindowField::Size
    } else if index == 2 {
        WindowField::Focused
    } else if index == 3 {
        WindowField::Occluded
    } else if index == 4 {
        WindowField::Moved
    } else if index == 5 {
        WindowField::Resized
    } else if index == 6 {
        WindowField::CursorState
    } else if index == 7 {
        WindowField::CursorEntered
    } else if index == 8 {
        WindowField::CursorMoved
    } else if index == 9 {
        WindowField::Quit
    } else if index == 10 {
        WindowField::ScaleFactor
    } else if index == 11 {
        WindowField::Theme
    } else if index == 12 {
        WindowField::HoverCancelled
    } else if index == 13 {
        WindowField::MouseWheel
    } else if index == 14 {
        WindowField::SmartMagnify
    } else if index == 15 {
        WindowField::Text
    } else if index == 16 {
        WindowField::Ime
    } else if index == 17 {
        WindowField::Touch
    } else if index == 18 {
        WindowField::TouchpadPressure
    } else if index == 19 {
        WindowField::TouchpadMagnify
    } else if index == 20 {
        WindowField::TouchpadRotate
    } else if index == 21 {
        WindowField::AxisMotion
    } else if index == 22 {
        WindowField::HoveredFiles
    } else {
        WindowField::DroppedFiles
    }
}

} // verus!
