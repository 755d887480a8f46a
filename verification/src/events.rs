//! The raw events that the library consumes.
//!
//! An event says what happened and, where that matters, to which window or
//! device. Numbers that are not integers (positions of the cursor, forces,
//! scroll amounts) are carried as the bits of their IEEE 754 encoding: the
//! library stores and hands them on, it never computes with them.

use crate::definitions::{AxisId, ButtonId, ElementState, KeyCode, Modifiers, MouseButton, ScanCode};
use std::time::Instant;
use vstd::prelude::*;

verus! {

/// A single-precision number, as its bits.
pub type Real32 = u32;

/// A double-precision number, as its bits.
pub type Real64 = u64;

/// Names a window.
#[derive(Clone, Copy, Debug, PartialEq, Eq, Hash, Structural)]
pub struct WindowId(pub u64);

/// Names an input device.
#[derive(Clone, Copy, Debug, PartialEq, Eq, Hash, Structural)]
pub struct DeviceId(pub u64);

/// A position in physical pixels.
#[derive(Debug, PartialEq, Eq, Hash, Structural)]
pub struct PhysicalPosition<P> {
    pub x: P,
    pub y: P,
}

impl<P: Copy> Clone for PhysicalPosition<P> {
    fn clone(&self) -> (copy: Self)
        ensures
            copy == *self,
    {
        *self
    }
}

impl<P: Copy> Copy for PhysicalPosition<P> {

}

/// A size in physical pixels.
#[derive(Debug, PartialEq, Eq, Hash, Structural)]
pub struct PhysicalSize<P> {
    pub width: P,
    pub height: P,
}

impl<P: Copy> Clone for PhysicalSize<P> {
    fn clone(&self) -> (copy: Self)
        ensures
            copy == *self,
    {
        *self
    }
}

impl<P: Copy> Copy for PhysicalSize<P> {

}

/// The colour scheme of a window.
#[derive(Clone, Copy, Debug, PartialEq, Eq, Hash, Structural)]
pub enum Theme {
    Light,
    Dark,
}

/// Where a touch or a gesture stands.
#[derive(Clone, Copy, Debug, PartialEq, Eq, Hash, Structural)]
pub enum TouchPhase {
    Started,
    Moved,
    Ended,
    Cancelled,
}

/// How hard a touch presses.
#[derive(Clone, Copy, Debug, PartialEq, Eq, Hash, Structural)]
pub enum Force {
    Calibrated { force: Real64, max_possible_force: Real64, altitude_angle: Option<Real64> },
    Normalized(Real64),
}

/// A finger on a touch screen.
#[derive(Clone, Copy, Debug, PartialEq, Eq, Hash, Structural)]
pub struct Touch {
    pub device_id: DeviceId,
    pub phase: TouchPhase,
    pub location: PhysicalPosition<Real64>,
    pub force: Option<Force>,
    pub id: u64,
}

/// A finger on a touch screen, without the device that it is on.
#[derive(Clone, Copy, Debug, PartialEq, Eq, Hash, Structural)]
pub struct IdLessTouch {
    pub phase: TouchPhase,
    pub location: PhysicalPosition<Real64>,
    pub force: Option<Force>,
    pub id: u64,
}

impl From<Touch> for IdLessTouch {
    fn from(touch: Touch) -> (bare: Self) {
        IdLessTouch { phase: touch.phase, location: touch.location, force: touch.force, id: touch.id }
    }
}

impl vstd::std_specs::convert::FromSpecImpl<Touch> for IdLessTouch {
    open spec fn obeys_from_spec() -> bool {
        true
    }

    open spec fn from_spec(touch: Touch) -> Self {
        IdLessTouch { phase: touch.phase, location: touch.location, force: touch.force, id: touch.id }
    }
}

/// How far a mouse wheel was turned.
#[derive(Clone, Copy, Debug, PartialEq, Eq, Hash, Structural)]
pub enum MouseScrollDelta {
    /// In lines: to the right, and down.
    LineDelta(Real32, Real32),
    /// In pixels.
    PixelDelta(PhysicalPosition<Real64>),
}

/// A key went down or up.
#[derive(Clone, Copy, Debug, PartialEq, Eq, Hash, Structural)]
pub struct KeyboardInput {
    /// The key by position.
    pub scancode: ScanCode,
    pub state: ElementState,
    /// The key by meaning, where the platform knows it.
    pub virtual_keycode: Option<KeyCode>,
}

/// What an input method reports.
#[derive(Debug)]
pub enum Ime {
    Enabled,
    /// The text being composed, and where the cursor is in it.
    Preedit(String, Option<(usize, usize)>),
    /// Text that is final.
    Commit(String),
    Disabled,
}

impl Clone for Ime {
    fn clone(&self) -> (copy: Self)
        ensures
            copy == *self,
    {
        match self {
            Ime::Enabled => Ime::Enabled,
            Ime::Preedit(text, cursor) => Ime::Preedit(text.clone(), *cursor),
            Ime::Commit(text) => Ime::Commit(text.clone()),
            Ime::Disabled => Ime::Disabled,
        }
    }
}

/// Why the event loop woke up.
#[derive(Clone, Copy, Debug)]
#[allow(inconsistent_fields)]
pub enum StartCause {
    ResumeTimeReached { start: Instant, requested_resume: Instant },
    WaitCancelled { start: Instant, requested_resume: Option<Instant> },
    Poll,
    Init,
}

/// Something happened to a window.
#[derive(Debug)]
#[allow(inconsistent_fields)]
pub enum WindowEvent {
    Resized(PhysicalSize<u32>),
    Moved(PhysicalPosition<i32>),
    CloseRequested,
    Destroyed,
    DroppedFile(String),
    HoveredFile(String),
    HoveredFileCancelled,
    ReceivedCharacter(char),
    Focused(bool),
    KeyboardInput { device_id: DeviceId, input: KeyboardInput },
    ModifiersChanged(Modifiers),
    Ime(Ime),
    CursorMoved { device_id: DeviceId, position: PhysicalPosition<Real64> },
    CursorEntered { device_id: DeviceId },
    CursorLeft { device_id: DeviceId },
    MouseWheel { device_id: DeviceId, delta: MouseScrollDelta, phase: TouchPhase },
    MouseInput { device_id: DeviceId, state: ElementState, button: MouseButton },
    TouchpadMagnify { device_id: DeviceId, delta: Real64, phase: TouchPhase },
    SmartMagnify { device_id: DeviceId },
    TouchpadRotate { device_id: DeviceId, delta: Real32, phase: TouchPhase },
    TouchpadPressure { device_id: DeviceId, pressure: Real32, stage: i64 },
    AxisMotion { device_id: DeviceId, axis: AxisId, value: Real64 },
    Touch(Touch),
    ScaleFactorChanged { scale_factor: Real64 },
    ThemeChanged(Theme),
    Occluded(bool),
}

/// Something happened on an input device.
#[derive(Clone, Copy, Debug)]
#[allow(inconsistent_fields)]
pub enum DeviceEvent {
    Added,
    Removed,
    MouseMotion { delta: (Real64, Real64) },
    MouseWheel { delta: MouseScrollDelta },
    Motion { axis: AxisId, value: Real64 },
    Button { button: ButtonId, state: ElementState },
    Key(KeyboardInput),
    Text { codepoint: char },
}

/// One raw event.
#[derive(Debug)]
#[allow(inconsistent_fields)]
pub enum Event {
    NewEvents(StartCause),
    WindowEvent { window_id: WindowId, event: WindowEvent },
    DeviceEvent { device_id: DeviceId, event: DeviceEvent },
    UserEvent,
    Suspended,
    Resumed,
    /// All events of this cycle have been delivered: a step ends here.
    MainEventsCleared,
    RedrawRequested(WindowId),
    RedrawEventsCleared,
    LoopDestroyed,
}

impl Event {
    /// Whether the event ends a step.
    pub open spec fn is_step_boundary(self) -> bool {
        self is MainEventsCleared
    }

    /// Tells whether the event ends a step.
    pub fn ends_step(&self) -> (boundary: bool)
        ensures
            boundary == self.is_step_boundary(),
    {
        match self {
            Event::MainEventsCleared => true,
            _ => false,
        }
    }
}

/// The mouse button behind a device's button number: the first three are
/// the left, middle and right button.
pub open spec fn mouse_button_of(button: ButtonId) -> MouseButton {
    if button == 0 {
        MouseButton::Left
    } else if button == 1 {
        MouseButton::Middle
    } else if button == 2 {
        MouseButton::Right
    } else {
        MouseButton::Other((button % 0x1_0000) as u16)
    }
}

/// Finds the mouse button behind a device's button number. Numbers beyond
/// 16 bits are cut to their low 16 bits.
pub fn mouse_button_from_u32(button: ButtonId) -> (named: MouseButton)
    ensures
        named == mouse_button_of(button),
{
    if button == 0 {
        MouseButton::Left
    } else if button == 1 {
        MouseButton::Middle
    } else if button == 2 {
        MouseButton::Right
    } else {
        MouseButton::Other((button % 0x1_0000) as u16)
    }
}

} // verus!
