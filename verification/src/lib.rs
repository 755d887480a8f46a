//! Event aggregation between a windowing event stream and application logic.
//!
//! Raw events are fed one at a time. Between two step boundaries the library
//! tracks which inputs are held, which were pressed or released, and what
//! else arrived; at a step boundary it calls the registered callbacks that
//! match what was gathered, and then forgets what lasts one step only.
//!
//! There are three helpers, from light to full:
//!
//! - `winit_event_helper::EventHelper` keeps track of the keys and mouse
//!   buttons that are down and forwards each event to one callback;
//! - `callbacks::Callbacks` works on a `callback_data::CallbackData` and
//!   calls back at once, telling a key that went down from a key that is
//!   held;
//! - `event_helper::EventHelper` gathers the events of a step in a
//!   `callbacks::all::CallbackData` and calls back when the step ends.
//!
//! The hash tables come from the `ahash` crate and the clock from the
//! standard library; what is assumed of them is written down in `tables`
//! and `clock`. Everything else is proved.

pub mod callback_data;
pub mod callbacks;
pub mod clock;
pub mod default_ahashmap;
pub mod definitions;
pub mod device_callbacks;
pub mod dispatch;
pub mod event_helper;
pub mod events;
pub mod general_callbacks;
pub mod input;
pub mod tables;
pub mod window_callbacks;
pub mod winit_event_helper;

pub use crate::callbacks::all::Callbacks;
pub use crate::definitions::{
    AxisId, ButtonId, CursorState, ElementState, GenericInput, IdLessTouch, KeyCode, Modifiers,
    MouseButton, Quit, QuitWindow, ScanCode, Symbol,
};
pub use crate::event_helper::EventHelper;
