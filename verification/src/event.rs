//! The events that a number input reports to whoever owns the value it shows.

use vstd::prelude::*;

verus! {

/// A request to move the shown value by one unit, up or down.
#[derive(Debug, Clone, Copy, PartialEq, Eq, Structural)]
pub enum StepAction {
    Decrement,
    Increment,
}

/// What the text field reports about itself.
#[derive(Debug, PartialEq, Eq)]
pub enum InputEvent {
    /// The text changed; the payload is the text that the field now holds.
    Change(String),
    PressEnter,
    Focus,
    Blur,
}

/// An `InputEvent` with its payload as a sequence of characters.
pub ghost enum InputEventView {
    Change(Seq<char>),
    PressEnter,
    Focus,
    Blur,
}

impl View for InputEvent {
    type V = InputEventView;

    open spec fn view(&self) -> InputEventView {
        match *self {
            InputEvent::Change(text) => InputEventView::Change(text@),
            InputEvent::PressEnter => InputEventView::PressEnter,
            InputEvent::Focus => InputEventView::Focus,
            InputEvent::Blur => InputEventView::Blur,
        }
    }
}

/// What a number input reports: an event of its text field, handed on as it
/// came, or a step request.
#[derive(Debug, PartialEq, Eq)]
pub enum NumberInputEvent {
    Input(InputEvent),
    Step(StepAction),
}

/// A `NumberInputEvent` over the view of the event that it hands on.
pub ghost enum NumberInputEventView {
    Input(InputEventView),
    Step(StepAction),
}

impl View for NumberInputEvent {
    type V = NumberInputEventView;

    open spec fn view(&self) -> NumberInputEventView {
        match *self {
            NumberInputEvent::Input(event) => NumberInputEventView::Input(event@),
            NumberInputEvent::Step(action) => NumberInputEventView::Step(action),
        }
    }
}

impl InputEvent {
    /// Reports that the field now holds `text`.
    pub fn change(text: &str) -> (r: InputEvent)
        ensures
            r@ == InputEventView::Change(text@),
    {
        InputEvent::Change(text.to_owned())
    }
}

} // verus!
