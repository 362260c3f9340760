//! The state of a number input as a mathematical value, the steps that take
//! one state to the next, and what holds of them.

use crate::event::{NumberInputEvent, StepAction};
use crate::size::Size;
use crate::text_input::InputConfig;
use regex::Regex;
use vstd::prelude::*;

verus! {

/// What a number input holds: its text field, the size it is to be drawn in,
/// and whether that size has been handed to the field yet.
pub ghost struct NumberInputState {
    pub input: InputConfig,
    pub size: Size,
    pub synced_size: bool,
}

impl NumberInputState {
    /// A number input as it is made around `pattern`: an empty field without a
    /// frame of its own that takes the edits that `pattern` matches, medium
    /// size, nothing handed to the field yet.
    pub open spec fn initial(pattern: Regex) -> NumberInputState {
        NumberInputState {
            input: InputConfig {
                pattern: Some(pattern),
                appearance: false,
                ..InputConfig::initial()
            },
            size: Size::Medium,
            synced_size: false,
        }
    }

    /// What holds of every number input. Its field has a pattern and no frame
    /// of its own. Until the size has been handed over, the field still has
    /// the size it was made with.
    pub open spec fn wf(self) -> bool {
        &&& self.input.pattern is Some
        &&& !self.input.appearance
        &&& !self.synced_size ==> self.input.size == Size::Medium
    }

    pub open spec fn with_placeholder(self, placeholder: Seq<char>) -> NumberInputState {
        NumberInputState { input: InputConfig { placeholder, ..self.input }, ..self }
    }

    pub open spec fn with_pattern(self, pattern: Regex) -> NumberInputState {
        NumberInputState { input: InputConfig { pattern: Some(pattern), ..self.input }, ..self }
    }

    pub open spec fn with_value(self, text: Seq<char>) -> NumberInputState {
        NumberInputState { input: InputConfig { text, ..self.input }, ..self }
    }

    pub open spec fn with_disabled(self, disabled: bool) -> NumberInputState {
        NumberInputState { input: InputConfig { disabled, ..self.input }, ..self }
    }

    /// The widget with another size of its own. The field is not touched.
    pub open spec fn with_size(self, size: Size) -> NumberInputState {
        NumberInputState { size, ..self }
    }

    /// Whether the next render, or the next call of `set_size`, hands the size
    /// to the field.
    pub open spec fn propagates_size(self) -> bool {
        !self.synced_size
    }

    /// The widget after its size has been handed to the field, if that was
    /// still to be done: this is what a render leaves.
    pub open spec fn synced(self) -> NumberInputState {
        if self.propagates_size() {
            NumberInputState {
                input: InputConfig { size: self.size, ..self.input },
                size: self.size,
                synced_size: true,
            }
        } else {
            self
        }
    }

    /// The widget after `renders` renders in a row.
    pub open spec fn after_renders(self, renders: nat) -> NumberInputState
        decreases renders,
    {
        if renders == 0 {
            self
        } else {
            self.synced().after_renders((renders - 1) as nat)
        }
    }

    /// How many of `renders` renders in a row hand the size to the field.
    pub open spec fn size_propagations(self, renders: nat) -> nat
        decreases renders,
    {
        if renders == 0 {
            0
        } else {
            let first: nat = if self.propagates_size() {
                1
            } else {
                0
            };
            first + self.synced().size_propagations((renders - 1) as nat)
        }
    }

    /// The event that a request for `action` gives rise to: none while the
    /// field is disabled, else the one step event that names `action`.
    pub open spec fn step(self, action: StepAction) -> Option<NumberInputEvent> {
        if self.input.disabled {
            None
        } else {
            Some(NumberInputEvent::Step(action))
        }
    }

    /// The widget after an edit by the user that would leave `text` in the field.
    pub open spec fn after_edit(self, text: Seq<char>) -> NumberInputState {
        NumberInputState { input: self.input.after_edit(text), ..self }
    }
}

/// A number input is well formed when it is made.
pub proof fn lemma_initial_wf(pattern: Regex)
    ensures
        NumberInputState::initial(pattern).wf(),
{
}

/// No step takes a well-formed number input to one that is not.
pub proof fn lemma_wf_preserved(
    s: NumberInputState,
    text: Seq<char>,
    pattern: Regex,
    disabled: bool,
    size: Size,
)
    requires
        s.wf(),
    ensures
        s.with_placeholder(text).wf(),
        s.with_pattern(pattern).wf(),
        s.with_value(text).wf(),
        s.with_disabled(disabled).wf(),
        s.with_size(size).wf(),
        s.synced().wf(),
        s.after_edit(text).wf(),
{
}

/// A request for a step while the field is disabled gives no event. While it
/// is enabled it gives exactly the step event for the action that was asked
/// for. Nothing else that the widget holds has a say in it.
pub proof fn lemma_step_guard(s: NumberInputState, action: StepAction)
    ensures
        s.input.disabled ==> s.step(action) is None,
        !s.input.disabled ==> s.step(action) == Some(NumberInputEvent::Step(action)),
{
}

/// A render that follows a render, or a call of `set_size`, changes nothing:
/// the size is not handed to the field again.
pub proof fn lemma_sync_idempotent(s: NumberInputState, size: Size)
    ensures
        !s.synced().propagates_size(),
        s.synced().synced() == s.synced(),
        s.with_size(size).synced().synced() == s.with_size(size).synced(),
{
}

/// Over any number of renders in a row the size is handed to the field at most
/// once: exactly once where it was still to be done and there is a render at
/// all, and never otherwise. The widget is then as the first render left it,
/// and the field has the size that the widget had at that render.
pub proof fn lemma_size_propagated_once(s: NumberInputState, renders: nat)
    ensures
        s.size_propagations(renders) == if s.propagates_size() && renders >= 1 {
            1nat
        } else {
            0nat
        },
        renders >= 1 ==> s.after_renders(renders) == s.synced(),
        renders >= 1 && s.propagates_size() ==> s.after_renders(renders).input.size == s.size,
    decreases renders,
{
    if renders >= 1 {
        lemma_size_propagated_once(s.synced(), (renders - 1) as nat);
    }
}

/// Placeholder, pattern and value may be set in any order: each of the six
/// orders leaves the same widget, and so the same text field.
pub proof fn lemma_builders_commute(
    s: NumberInputState,
    placeholder: Seq<char>,
    pattern: Regex,
    text: Seq<char>,
)
    ensures
        ({
            let r = s.with_placeholder(placeholder).with_pattern(pattern).with_value(text);
            &&& r == s.with_placeholder(placeholder).with_value(text).with_pattern(pattern)
            &&& r == s.with_pattern(pattern).with_placeholder(placeholder).with_value(text)
            &&& r == s.with_pattern(pattern).with_value(text).with_placeholder(placeholder)
            &&& r == s.with_value(text).with_placeholder(placeholder).with_pattern(pattern)
            &&& r == s.with_value(text).with_pattern(pattern).with_placeholder(placeholder)
            &&& r.input == (InputConfig {
                placeholder,
                pattern: Some(pattern),
                text,
                ..s.input
            })
        }),
{
}

} // verus!
