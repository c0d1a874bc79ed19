//! A one-line text field: characters are typed at its end and taken back with
//! backspace.

use vstd::prelude::*;
use vstd::string::*;

use crate::app::{modified_char, KeyCode, KeyEvent};
use crate::text::{chars_of, string_between};

verus! {

/// A text field.
#[derive(Debug, Default)]
pub struct TextInput {
    pub value: String,
    pub focused: bool,
    /// Shown as dots, for secrets.
    pub masked: bool,
}

/// A text field as values.
#[verifier::ext_equal]
pub struct TextModel {
    pub value: Seq<char>,
    pub focused: bool,
    pub masked: bool,
}

impl View for TextInput {
    type V = TextModel;

    open spec fn view(&self) -> TextModel {
        TextModel { value: self.value@, focused: self.focused, masked: self.masked }
    }
}

impl TextModel {
    /// An empty field without focus.
    pub open spec fn empty() -> TextModel {
        TextModel { value: Seq::empty(), focused: false, masked: false }
    }

    pub open spec fn cleared(self) -> TextModel {
        TextModel { value: Seq::empty(), ..self }
    }

    pub open spec fn with_focus(self, focused: bool) -> TextModel {
        TextModel { focused, ..self }
    }

    /// Whether a key edits the field.
    pub open spec fn edits(self, key: KeyEvent) -> bool {
        (key.code is Char && !key.is_modified_char()) || (key.code == KeyCode::Backspace
            && self.value.len() > 0)
    }

    /// The field after a key.
    pub open spec fn typed(self, key: KeyEvent) -> TextModel {
        if !self.edits(key) {
            self
        } else {
            match key.code {
                KeyCode::Char(c) => TextModel { value: self.value.push(c), ..self },
                _ => TextModel { value: self.value.drop_last(), ..self },
            }
        }
    }
}

/// Backspace takes back what was typed last.
pub proof fn law_backspace_undoes_a_character(input: TextModel, key: KeyEvent, back: KeyEvent)
    requires
        key.code is Char,
        !key.is_modified_char(),
        back.code == KeyCode::Backspace,
    ensures
        input.typed(key).typed(back) == input,
{
    assert(input.typed(key).typed(back).value =~= input.value);
}

impl TextInput {
    pub fn new() -> (input: TextInput)
        ensures
            input@ == TextModel::empty(),
    {
        TextInput { value: String::new(), focused: false, masked: false }
    }

    pub fn with_value(value: &str) -> (input: TextInput)
        ensures
            input@ == (TextModel { value: value@, focused: false, masked: false }),
    {
        TextInput { value: value.to_owned(), focused: false, masked: false }
    }

    pub fn value(&self) -> (text: &str)
        ensures
            text@ == self@.value,
    {
        self.value.as_str()
    }

    pub fn clear(&mut self)
        ensures
            final(self)@ == old(self)@.cleared(),
    {
        self.value = String::new();
    }

    /// Hand the field a key; returns whether the text changed.
    pub fn on_key(&mut self, key: KeyEvent) -> (changed: bool)
        ensures
            final(self)@ == old(self)@.typed(key),
            changed == old(self)@.edits(key),
    {
        match key.code {
            KeyCode::Char(c) => {
                if modified_char(&key) {
                    return false;
                }
                self.value.push(c);
                true
            },
            KeyCode::Backspace => {
                let chars: Vec<char> = chars_of(self.value.as_str());
                if chars.len() == 0 {
                    return false;
                }
                self.value = string_between(&chars, 0, chars.len() - 1);
                assert(self@.value =~= old(self)@.value.drop_last());
                true
            },
            _ => false,
        }
    }
}

} // verus!
