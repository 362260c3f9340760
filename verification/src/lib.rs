//! A number-stepper input: a text field that takes numeric text only, between a
//! minus button and a plus button.
//!
//! The widget is kept apart from any windowing toolkit. It holds its state,
//! says what to draw, and answers each request with the event to report, if
//! there is one. Drawing, focus and the delivery of keys and events are the
//! caller's part.

pub mod event;
pub mod keymap;
pub mod layout;
pub mod number_input;
pub mod pattern;
pub mod size;
pub mod state;
pub mod text_input;

pub use event::{InputEvent, NumberInputEvent, StepAction};
pub use keymap::{init, KeyBinding, KEY_CONTEXT};
pub use layout::{Button, Child, IconName, Layout, BUTTON_OFFSET};
pub use number_input::NumberInput;
pub use pattern::{default_pattern, DEFAULT_PATTERN};
pub use size::Size;
pub use text_input::TextInput;
