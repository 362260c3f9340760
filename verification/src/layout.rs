//! What a number input looks like when it is drawn: a row that holds a minus
//! button, the text field and a plus button.

use crate::event::StepAction;
use crate::keymap::KEY_CONTEXT;
use crate::size::Size;
use vstd::prelude::*;

verus! {

/// By how many pixels each button is moved towards its edge of the row. The
/// amount is negative: the button reaches over the row's border.
pub const BUTTON_OFFSET: i32 = -3;

/// The sign that a button shows.
#[derive(Debug, Clone, Copy, PartialEq, Eq, Structural)]
pub enum IconName {
    Minus,
    Plus,
}

/// A borderless button that asks for a step when it is clicked.
#[derive(Debug, Clone, Copy, PartialEq, Eq)]
pub struct Button {
    pub id: &'static str,
    pub size: Size,
    pub icon: IconName,
    /// The margin on the button's left, in pixels.
    pub margin_left: i32,
    /// The margin on the button's right, in pixels.
    pub margin_right: i32,
    /// The step to hand to `NumberInput::on_step` on a click.
    pub on_click: StepAction,
}

/// One element of the row.
#[derive(Debug, Clone, Copy, PartialEq, Eq)]
pub enum Child {
    Button(Button),
    /// The text field.
    Input,
}

/// The row.
#[derive(Debug, PartialEq, Eq)]
pub struct Layout {
    /// The key context in which the row takes its keys.
    pub key_context: &'static str,
    /// The steps that the row listens for, whatever key or menu asks for them.
    pub actions: Vec<StepAction>,
    /// The size at which the row is drawn.
    pub size: Size,
    /// Whether the row shows the outline of a focused element.
    pub outlined: bool,
    /// The elements of the row, from left to right.
    pub children: Vec<Child>,
}

impl Button {
    /// The button on the left of the field.
    pub open spec fn spec_minus(size: Size) -> Button {
        Button {
            id: "minus",
            size,
            icon: IconName::Minus,
            margin_left: BUTTON_OFFSET,
            margin_right: 0,
            on_click: StepAction::Decrement,
        }
    }

    /// The button on the right of the field.
    pub open spec fn spec_plus(size: Size) -> Button {
        Button {
            id: "plus",
            size,
            icon: IconName::Plus,
            margin_left: 0,
            margin_right: BUTTON_OFFSET,
            on_click: StepAction::Increment,
        }
    }

    #[verifier::when_used_as_spec(spec_minus)]
    pub fn minus(size: Size) -> (r: Button)
        ensures
            r == Button::spec_minus(size),
    {
        Button {
            id: "minus",
            size,
            icon: IconName::Minus,
            margin_left: BUTTON_OFFSET,
            margin_right: 0,
            on_click: StepAction::Decrement,
        }
    }

    #[verifier::when_used_as_spec(spec_plus)]
    pub fn plus(size: Size) -> (r: Button)
        ensures
            r == Button::spec_plus(size),
    {
        Button {
            id: "plus",
            size,
            icon: IconName::Plus,
            margin_left: 0,
            margin_right: BUTTON_OFFSET,
            on_click: StepAction::Increment,
        }
    }
}

impl Layout {
    /// Whether this is the row of a number input of size `size` that has the
    /// focus or not, as `focused` says. The row listens for both steps. It is
    /// outlined exactly when focused. The minus button stands left of the
    /// field and the plus button right of it, both in the button size that
    /// goes with `size`.
    pub open spec fn describes(&self, size: Size, focused: bool) -> bool {
        &&& self.key_context == KEY_CONTEXT
        &&& self.actions@ =~= seq![StepAction::Increment, StepAction::Decrement]
        &&& self.size == size
        &&& self.outlined == focused
        &&& self.children@ =~= seq![
            Child::Button(Button::minus(size.button_size())),
            Child::Input,
            Child::Button(Button::plus(size.button_size())),
        ]
    }

    /// The row of a number input of size `size`.
    pub fn new(size: Size, focused: bool) -> (r: Layout)
        ensures
            r.describes(size, focused),
    {
        let button_size = size.button_size();
        let mut actions: Vec<StepAction> = Vec::new();
        actions.push(StepAction::Increment);
        actions.push(StepAction::Decrement);
        let mut children: Vec<Child> = Vec::new();
        children.push(Child::Button(Button::minus(button_size)));
        children.push(Child::Input);
        children.push(Child::Button(Button::plus(button_size)));
        Layout { key_context: KEY_CONTEXT, actions, size, outlined: focused, children }
    }
}

} // verus!
