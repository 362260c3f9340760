//! The key bindings of a number input.

use crate::event::StepAction;
use vstd::prelude::*;

verus! {

/// The name of the key context in which a number input takes its keys.
pub const KEY_CONTEXT: &'static str = "NumberInput";

/// One key, the step that it asks for, and the key context in which it does so.
#[derive(Debug, Clone, Copy, PartialEq, Eq)]
pub struct KeyBinding {
    pub keystroke: &'static str,
    pub action: StepAction,
    pub context: &'static str,
}

/// The two bindings, in the order in which `init` gives them.
pub open spec fn bindings() -> Seq<KeyBinding> {
    seq![
        KeyBinding { keystroke: "up", action: StepAction::Increment, context: KEY_CONTEXT },
        KeyBinding { keystroke: "down", action: StepAction::Decrement, context: KEY_CONTEXT },
    ]
}

/// The key bindings to register with the application before a number input is
/// used: "up" steps up and "down" steps down, both inside `KEY_CONTEXT` only.
pub fn init() -> (r: Vec<KeyBinding>)
    ensures
        r@ == bindings(),
{
    let mut keys: Vec<KeyBinding> = Vec::new();
    keys.push(KeyBinding { keystroke: "up", action: StepAction::Increment, context: KEY_CONTEXT });
    keys.push(
        KeyBinding { keystroke: "down", action: StepAction::Decrement, context: KEY_CONTEXT },
    );
    keys
}

} // verus!
