//! What is gathered about one window during a step for each device on its
//! own: what the cursor, the mouse wheel, the touch screen and the touchpad
//! of that device did.

use crate::default_ahashmap::{copied, Blank, Twin};
use crate::definitions::AxisId;
use crate::callbacks::window::counted_once_more;
use crate::events::{
    IdLessTouch, MouseScrollDelta, PhysicalPosition, Real32, Real64, TouchPhase, WindowEvent,
};
use vstd::prelude::*;

verus! {

/// What is gathered about a window for one device, as mathematics.
pub struct WindowDeviceView {
    pub cursor_entered: Option<bool>,
    pub cursor_moved: Option<PhysicalPosition<Real64>>,
    pub smart_magnify: Option<usize>,
    pub mouse_wheel: Seq<MouseScrollDelta>,
    pub touch: Seq<IdLessTouch>,
    pub touchpad_pressure: Seq<(i64, Real32)>,
    pub touchpad_magnify: Seq<(Real64, TouchPhase)>,
    pub touchpad_rotate: Seq<(Real32, TouchPhase)>,
    pub axis_motion: Seq<(AxisId, Real64)>,
}

/// The device whose share of a window an event adds to; `None` for an event
/// that adds to no device's share.
pub open spec fn sharing_device(event: WindowEvent) -> Option<u64> {
    match event {
        WindowEvent::CursorMoved { device_id, position } => Some(device_id.0),
        WindowEvent::CursorEntered { device_id } => Some(device_id.0),
        WindowEvent::CursorLeft { device_id } => Some(device_id.0),
        WindowEvent::MouseWheel { device_id, delta, phase } => Some(device_id.0),
        WindowEvent::TouchpadMagnify { device_id, delta, phase } => Some(device_id.0),
        WindowEvent::SmartMagnify { device_id } => Some(device_id.0),
        WindowEvent::TouchpadRotate { device_id, delta, phase } => Some(device_id.0),
        WindowEvent::TouchpadPressure { device_id, pressure, stage } => Some(device_id.0),
        WindowEvent::AxisMotion { device_id, axis, value } => Some(device_id.0),
        WindowEvent::Touch(touch) => Some(touch.device_id.0),
        _ => None,
    }
}

impl WindowDeviceView {
    /// Nothing gathered.
    pub open spec fn empty() -> Self {
        WindowDeviceView {
            cursor_entered: None,
            cursor_moved: None,
            smart_magnify: None,
            mouse_wheel: Seq::empty(),
            touch: Seq::empty(),
            touchpad_pressure: Seq::empty(),
            touchpad_magnify: Seq::empty(),
            touchpad_rotate: Seq::empty(),
            axis_motion: Seq::empty(),
        }
    }

    /// What is gathered for the device once an event that it sent has been
    /// taken in.
    pub open spec fn apply(self, event: WindowEvent) -> Self {
        match event {
            WindowEvent::CursorMoved { device_id, position } => WindowDeviceView {
                cursor_moved: Some(position),
                ..self
            },
            WindowEvent::CursorEntered { device_id } => WindowDeviceView {
                cursor_entered: Some(true),
                ..self
            },
            WindowEvent::CursorLeft { device_id } => WindowDeviceView {
                cursor_entered: Some(false),
                ..self
            },
            WindowEvent::MouseWheel { device_id, delta, phase } => WindowDeviceView {
                mouse_wheel: self.mouse_wheel.push(delta),
                ..self
            },
            WindowEvent::TouchpadMagnify { device_id, delta, phase } => WindowDeviceView {
                touchpad_magnify: self.touchpad_magnify.push((delta, phase)),
                ..self
            },
            WindowEvent::SmartMagnify { device_id } => WindowDeviceView {
                smart_magnify: Some(
                    counted_once_more(
                        match self.smart_magnify {
                            Some(count) => count,
                            None => 0,
                        },
                    ),
                ),
                ..self
            },
            WindowEvent::TouchpadRotate { device_id, delta, phase } => WindowDeviceView {
                touchpad_rotate: self.touchpad_rotate.push((delta, phase)),
                ..self
            },
            WindowEvent::TouchpadPressure { device_id, pressure, stage } => WindowDeviceView {
                touchpad_pressure: self.touchpad_pressure.push((stage, pressure)),
                ..self
            },
            WindowEvent::AxisMotion { device_id, axis, value } => WindowDeviceView {
                axis_motion: self.axis_motion.push((axis, value)),
                ..self
            },
            WindowEvent::Touch(touch) => WindowDeviceView {
                touch: self.touch.push(
                    IdLessTouch {
                        phase: touch.phase,
                        location: touch.location,
                        force: touch.force,
                        id: touch.id,
                    },
                ),
                ..self
            },
            _ => self,
        }
    }
}

/// What is gathered about one window during a step for one device.
pub struct WindowDeviceData {
    pub cursor_entered: Option<bool>,
    pub cursor_moved: Option<PhysicalPosition<Real64>>,
    pub smart_magnify: Option<usize>,
    pub mouse_wheel: Vec<MouseScrollDelta>,
    pub touch: Vec<IdLessTouch>,
    pub touchpad_pressure: Vec<(i64, Real32)>,
    pub touchpad_magnify: Vec<(Real64, TouchPhase)>,
    pub touchpad_rotate: Vec<(Real32, TouchPhase)>,
    pub axis_motion: Vec<(AxisId, Real64)>,
}

impl View for WindowDeviceData {
    type V = WindowDeviceView;

    open spec fn view(&self) -> WindowDeviceView {
        WindowDeviceView {
            cursor_entered: self.cursor_entered,
            cursor_moved: self.cursor_moved,
            smart_magnify: self.smart_magnify,
            mouse_wheel: self.mouse_wheel@,
            touch: self.touch@,
            touchpad_pressure: self.touchpad_pressure@,
            touchpad_magnify: self.touchpad_magnify@,
            touchpad_rotate: self.touchpad_rotate@,
            axis_motion: self.axis_motion@,
        }
    }
}

impl Default for WindowDeviceData {
    fn default() -> (data: Self)
        ensures
            data@ == WindowDeviceView::empty(),
    {
        WindowDeviceData {
            cursor_entered: None,
            cursor_moved: None,
            smart_magnify: None,
            mouse_wheel: Vec::new(),
            touch: Vec::new(),
            touchpad_pressure: Vec::new(),
            touchpad_magnify: Vec::new(),
            touchpad_rotate: Vec::new(),
            axis_motion: Vec::new(),
        }
    }
}

impl Clone for WindowDeviceData {
    /// A second share that holds what this one holds.
    fn clone(&self) -> (copy: Self)
        ensures
            copy@ == self@,
    {
        WindowDeviceData {
            cursor_entered: self.cursor_entered,
            cursor_moved: self.cursor_moved,
            smart_magnify: self.smart_magnify,
            mouse_wheel: copied(&self.mouse_wheel),
            touch: copied(&self.touch),
            touchpad_pressure: copied(&self.touchpad_pressure),
            touchpad_magnify: copied(&self.touchpad_magnify),
            touchpad_rotate: copied(&self.touchpad_rotate),
            axis_motion: copied(&self.axis_motion),
        }
    }
}

impl Twin for WindowDeviceData {
    open spec fn alike(&self, other: &Self) -> bool {
        other@ == self@
    }

    fn twin(&self) -> (copy: Self) {
        self.clone()
    }
}

impl Blank for WindowDeviceData {
    open spec fn is_blank(&self) -> bool {
        self@ == WindowDeviceView::empty()
    }

    fn blank() -> (fresh: Self) {
        WindowDeviceData::default()
    }
}

/// Tells to which device's share of a window an event adds.
pub fn sharing_device_of(event: &WindowEvent) -> (device: Option<u64>)
    ensures
        device == sharing_device(*event),
{
    match event {
        WindowEvent::CursorMoved { device_id, position } => Some(device_id.0),
        WindowEvent::CursorEntered { device_id } => Some(device_id.0),
        WindowEvent::CursorLeft { device_id } => Some(device_id.0),
        WindowEvent::MouseWheel { device_id, delta, phase } => Some(device_id.0),
        WindowEvent::TouchpadMagnify { device_id, delta, phase } => Some(device_id.0),
        WindowEvent::SmartMagnify { device_id } => Some(device_id.0),
        WindowEvent::TouchpadRotate { device_id, delta, phase } => Some(device_id.0),
        WindowEvent::TouchpadPressure { device_id, pressure, stage } => Some(device_id.0),
        WindowEvent::AxisMotion { device_id, axis, value } => Some(device_id.0),
        WindowEvent::Touch(touch) => Some(touch.device_id.0),
        _ => None,
    }
}

impl WindowDeviceData {
    /// Takes in one event that the device sent.
    pub fn update(&mut self, event: &WindowEvent)
        ensures
            final(self)@ == old(self)@.apply(*event),
    {
        match event {
            WindowEvent::CursorMoved { device_id, position } => {
                self.cursor_moved = Some(*position);
            },
            WindowEvent::CursorEntered { device_id } => {
                self.cursor_entered = Some(true);
            },
            WindowEvent::CursorLeft { device_id } => {
                self.cursor_entered = Some(false);
            },
            WindowEvent::MouseWheel { device_id, delta, phase } => {
                self.mouse_wheel.push(*delta);
            },
            WindowEvent::TouchpadMagnify { device_id, delta, phase } => {
                self.touchpad_magnify.push((*delta, *phase));
            },
            WindowEvent::SmartMagnify { device_id } => {
                let count: usize = match self.smart_magnify {
                    Some(count) => count,
                    None => 0,
                };
                self.smart_magnify = Some(if count == usize::MAX { 0 } else { count + 1 });
            },
            WindowEvent::TouchpadRotate { device_id, delta, phase } => {
                self.touchpad_rotate.push((*delta, *phase));
            },
            WindowEvent::TouchpadPressure { device_id, pressure, stage } => {
                self.touchpad_pressure.push((*stage, *pressure));
            },
            WindowEvent::AxisMotion { device_id, axis, value } => {
                self.axis_motion.push((*axis, *value));
            },
            WindowEvent::Touch(touch) => {
                self.touch.push(
                    IdLessTouch {
                        phase: touch.phase,
                        location: touch.location,
                        force: touch.force,
                        id: touch.id,
                    },
                );
            },
            _ => {},
        }
    }
}

} // verus!
