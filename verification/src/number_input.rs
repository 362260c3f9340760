//! The number input: a text field for numeric text with a button on each side
//! that asks for a step down or up.
//!
//! The widget does no arithmetic. It reports what the user asks for, and
//! whoever owns the value answers with `set_value`.

use crate::event::{
    InputEvent, InputEventView, NumberInputEvent, NumberInputEventView, StepAction,
};
use crate::layout::Layout;
use crate::pattern::{default_pattern, regex_compiled, DEFAULT_PATTERN};
use crate::size::Size;
use crate::state::NumberInputState;
use crate::text_input::TextInput;
use regex::Regex;
use vstd::prelude::*;

verus! {

/// A number input.
#[derive(Debug)]
pub struct NumberInput {
    input: TextInput,
    size: Size,
    synced_size: bool,
}

impl View for NumberInput {
    type V = NumberInputState;

    closed spec fn view(&self) -> NumberInputState {
        NumberInputState { input: self.input@, size: self.size, synced_size: self.synced_size }
    }
}

impl NumberInput {
    /// A number input whose field takes numeric text only: the edits that
    /// `DEFAULT_PATTERN` matches. `None` where that pattern does not compile.
    pub fn new() -> (r: Option<NumberInput>)
        ensures
            match r {
                Some(widget) => regex_compiled(DEFAULT_PATTERN@) matches Some(pattern)
                    && widget@ == NumberInputState::initial(pattern),
                None => regex_compiled(DEFAULT_PATTERN@) is None,
            },
    {
        match default_pattern() {
            Some(pattern) => Some(NumberInput::from_pattern(pattern)),
            None => None,
        }
    }

    /// A number input whose field takes the edits that `pattern` matches.
    pub fn from_pattern(pattern: Regex) -> (r: NumberInput)
        ensures
            r@ == NumberInputState::initial(pattern),
    {
        let input = TextInput::new().pattern(pattern).appearance(false);
        NumberInput { input, size: Size::Medium, synced_size: false }
    }

    /// The widget with `placeholder` as the text that the empty field shows.
    pub fn placeholder(self, placeholder: &str) -> (r: NumberInput)
        ensures
            r@ == self@.with_placeholder(placeholder@),
    {
        let mut this = self;
        this.input.set_placeholder(placeholder);
        this
    }

    /// Sets the size of the widget, and hands it to the field if no size has
    /// been handed to it before.
    pub fn set_size(&mut self, size: Size)
        ensures
            final(self)@ == old(self)@.with_size(size).synced(),
    {
        self.size = size;
        self.sync_size_to_input_if_needed();
    }

    pub fn set_placeholder(&mut self, text: &str)
        ensures
            final(self)@ == old(self)@.with_placeholder(text@),
    {
        self.input.set_placeholder(text);
    }

    /// The widget with `pattern` in place of the pattern it had.
    pub fn pattern(self, pattern: Regex) -> (r: NumberInput)
        ensures
            r@ == self@.with_pattern(pattern),
    {
        let mut this = self;
        this.input.set_pattern(pattern);
        this
    }

    /// Puts `text` into the field. The pattern is not asked: it is for the
    /// user's edits.
    pub fn set_value(&mut self, text: &str)
        ensures
            final(self)@ == old(self)@.with_value(text@),
    {
        self.input.set_text(text);
    }

    pub fn set_disabled(&mut self, disabled: bool)
        ensures
            final(self)@ == old(self)@.with_disabled(disabled),
    {
        self.input.set_disabled(disabled);
    }

    /// Asks for a step up, as the plus button and the "up" key do.
    pub fn increment(&mut self) -> (r: Option<NumberInputEvent>)
        ensures
            *final(self) == *old(self),
            r == old(self)@.step(StepAction::Increment),
    {
        self.on_action_increment()
    }

    /// Asks for a step down, as the minus button and the "down" key do.
    pub fn decrement(&mut self) -> (r: Option<NumberInputEvent>)
        ensures
            *final(self) == *old(self),
            r == old(self)@.step(StepAction::Decrement),
    {
        self.on_action_decrement()
    }

    fn on_action_increment(&mut self) -> (r: Option<NumberInputEvent>)
        ensures
            *final(self) == *old(self),
            r == old(self)@.step(StepAction::Increment),
    {
        self.on_step(StepAction::Increment)
    }

    fn on_action_decrement(&mut self) -> (r: Option<NumberInputEvent>)
        ensures
            *final(self) == *old(self),
            r == old(self)@.step(StepAction::Decrement),
    {
        self.on_step(StepAction::Decrement)
    }

    /// Handles a request for a step, from a key or from the click on a button.
    /// While the field is disabled the request is dropped and nothing is
    /// reported. Otherwise exactly one event is reported, the step event for
    /// `action`. The widget itself does not change either way.
    pub fn on_step(&mut self, action: StepAction) -> (r: Option<NumberInputEvent>)
        ensures
            *final(self) == *old(self),
            r == old(self)@.step(action),
            old(self)@.input.disabled ==> r is None,
            !old(self)@.input.disabled ==> r == Some(NumberInputEvent::Step(action)),
    {
        if self.input.disabled() {
            return None;
        }
        Some(NumberInputEvent::Step(action))
    }

    /// Hands on an event of the field: the result is the one event to report,
    /// and it holds `event` as it came.
    pub fn on_input_event(&self, event: InputEvent) -> (r: NumberInputEvent)
        ensures
            r == NumberInputEvent::Input(event),
    {
        NumberInputEvent::Input(event)
    }

    /// An edit by the user that would leave `text` in the field. The field
    /// takes it or drops it, as `TextInput::replace_text` says, and the change
    /// that it reports, if any, is handed on.
    pub fn input_text(&mut self, text: &str) -> (r: Option<NumberInputEvent>)
        ensures
            final(self)@ == old(self)@.after_edit(text@),
            match r {
                Some(event) => old(self)@.input.accepts(text@) && event@
                    == NumberInputEventView::Input(InputEventView::Change(text@)),
                None => !old(self)@.input.accepts(text@),
            },
    {
        match self.input.replace_text(text) {
            Some(event) => Some(self.on_input_event(event)),
            None => None,
        }
    }

    fn sync_size_to_input_if_needed(&mut self)
        ensures
            final(self)@ == old(self)@.synced(),
    {
        if !self.synced_size {
            self.input.set_size(self.size);
            self.synced_size = true;
        }
    }

    /// The widget with another size of its own. The field learns of it at the
    /// next render, if no size has been handed to it before.
    pub fn with_size(self, size: Size) -> (r: NumberInput)
        ensures
            r@ == self@.with_size(size),
    {
        let mut this = self;
        this.size = size;
        this
    }

    /// Draws the widget. `focused` says whether the field has the focus. The
    /// first render hands the widget's size to the field, unless `set_size`
    /// has done so before. Every later one leaves the widget as it is.
    pub fn render(&mut self, focused: bool) -> (r: Layout)
        ensures
            final(self)@ == old(self)@.synced(),
            r.describes(final(self)@.size, focused),
    {
        self.sync_size_to_input_if_needed();
        Layout::new(self.size, focused)
    }

    /// The text field.
    pub fn input(&self) -> (r: &TextInput)
        ensures
            r@ == self@.input,
    {
        &self.input
    }

    /// The size of the widget. The field may have another one: see `set_size`.
    pub fn size(&self) -> (r: Size)
        ensures
            r == self@.size,
    {
        self.size
    }
}

} // verus!
