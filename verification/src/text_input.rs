//! The text field inside a number input, as far as the number input sets it up
//! and asks it questions.

use crate::event::{InputEvent, InputEventView};
use crate::pattern::{is_match, regex_is_match};
use crate::size::Size;
use regex::Regex;
use vstd::prelude::*;

verus! {

/// A text field: its text, and how it is set up.
#[derive(Debug)]
pub struct TextInput {
    text: String,
    placeholder: String,
    pattern: Option<Regex>,
    disabled: bool,
    size: Size,
    appearance: bool,
}

/// What a text field holds, with its texts as sequences of characters.
pub ghost struct InputConfig {
    pub text: Seq<char>,
    pub placeholder: Seq<char>,
    /// The expression that every edit must match; `None` lets every edit pass.
    pub pattern: Option<Regex>,
    pub disabled: bool,
    pub size: Size,
    /// Whether the field draws a border and a background of its own.
    pub appearance: bool,
}

impl InputConfig {
    /// A field as `TextInput::new` makes it.
    pub open spec fn initial() -> InputConfig {
        InputConfig {
            text: Seq::empty(),
            placeholder: Seq::empty(),
            pattern: None,
            disabled: false,
            size: Size::Medium,
            appearance: true,
        }
    }

    /// Whether `text` passes the field's pattern: it does where there is no
    /// pattern, or the pattern matches `text`.
    pub open spec fn accepts(self, text: Seq<char>) -> bool {
        match self.pattern {
            Some(re) => regex_is_match(re, text),
            None => true,
        }
    }

    /// The field after an edit by the user that would leave `text` in it: it
    /// holds `text` where `text` passes its pattern, and is unchanged where not.
    pub open spec fn after_edit(self, text: Seq<char>) -> InputConfig {
        if self.accepts(text) {
            InputConfig { text, ..self }
        } else {
            self
        }
    }
}

impl View for TextInput {
    type V = InputConfig;

    closed spec fn view(&self) -> InputConfig {
        InputConfig {
            text: self.text@,
            placeholder: self.placeholder@,
            pattern: self.pattern,
            disabled: self.disabled,
            size: self.size,
            appearance: self.appearance,
        }
    }
}

impl TextInput {
    /// An empty, enabled field of medium size, with no placeholder and no pattern.
    pub fn new() -> (r: TextInput)
        ensures
            r@ == InputConfig::initial(),
    {
        TextInput {
            text: String::new(),
            placeholder: String::new(),
            pattern: None,
            disabled: false,
            size: Size::Medium,
            appearance: true,
        }
    }

    /// The field with `pattern` as the expression that edits must match.
    pub fn pattern(self, pattern: Regex) -> (r: TextInput)
        ensures
            r@ == (InputConfig { pattern: Some(pattern), ..self@ }),
    {
        let mut this = self;
        this.pattern = Some(pattern);
        this
    }

    /// The field with or without a border and background of its own.
    pub fn appearance(self, appearance: bool) -> (r: TextInput)
        ensures
            r@ == (InputConfig { appearance, ..self@ }),
    {
        let mut this = self;
        this.appearance = appearance;
        this
    }

    pub fn set_placeholder(&mut self, placeholder: &str)
        ensures
            final(self)@ == (InputConfig { placeholder: placeholder@, ..old(self)@ }),
    {
        self.placeholder = placeholder.to_owned();
    }

    pub fn set_pattern(&mut self, pattern: Regex)
        ensures
            final(self)@ == (InputConfig { pattern: Some(pattern), ..old(self)@ }),
    {
        self.pattern = Some(pattern);
    }

    /// Puts `text` into the field as it is: the pattern is for edits, and is
    /// not asked here.
    pub fn set_text(&mut self, text: &str)
        ensures
            final(self)@ == (InputConfig { text: text@, ..old(self)@ }),
    {
        self.text = text.to_owned();
    }

    pub fn set_disabled(&mut self, disabled: bool)
        ensures
            final(self)@ == (InputConfig { disabled, ..old(self)@ }),
    {
        self.disabled = disabled;
    }

    pub fn set_size(&mut self, size: Size)
        ensures
            final(self)@ == (InputConfig { size, ..old(self)@ }),
    {
        self.size = size;
    }

    pub fn text(&self) -> (r: &str)
        ensures
            r@ == self@.text,
    {
        self.text.as_str()
    }

    pub fn placeholder(&self) -> (r: &str)
        ensures
            r@ == self@.placeholder,
    {
        self.placeholder.as_str()
    }

    pub fn validation_pattern(&self) -> (r: Option<&Regex>)
        ensures
            r == match self@.pattern {
                Some(re) => Some(&re),
                None => None,
            },
    {
        self.pattern.as_ref()
    }

    pub fn disabled(&self) -> (r: bool)
        ensures
            r == self@.disabled,
    {
        self.disabled
    }

    pub fn size(&self) -> (r: Size)
        ensures
            r == self@.size,
    {
        self.size
    }

    pub fn has_appearance(&self) -> (r: bool)
        ensures
            r == self@.appearance,
    {
        self.appearance
    }

    /// Whether `text` passes the field's pattern: it does where the field has
    /// no pattern, or its pattern matches `text`.
    pub fn accepts(&self, text: &str) -> (r: bool)
        ensures
            r == self@.accepts(text@),
    {
        match &self.pattern {
            Some(re) => is_match(re, text),
            None => true,
        }
    }

    /// An edit by the user that would leave `text` in the field. Where `text`
    /// passes the pattern, the field holds it from now on and reports the
    /// change. Where it does not, the edit is dropped: the field stays as it
    /// was and reports nothing.
    pub fn replace_text(&mut self, text: &str) -> (r: Option<InputEvent>)
        ensures
            final(self)@ == old(self)@.after_edit(text@),
            match r {
                Some(event) => old(self)@.accepts(text@) && event@ == InputEventView::Change(text@),
                None => !old(self)@.accepts(text@),
            },
    {
        if !self.accepts(text) {
            return None;
        }
        self.text = text.to_owned();
        Some(InputEvent::change(text))
    }
}

} // verus!
