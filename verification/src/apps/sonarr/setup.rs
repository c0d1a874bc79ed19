//! First-run / re-auth form: server host plus API key, two plain fields. Enter
//! on the last one submits.

use vstd::prelude::*;
use vstd::string::*;

use crate::app::{KeyCode, KeyEvent};
use crate::config::SonarrConfig;
use crate::net::{host_problem, is_plain_http, plain, problem};
use crate::text::opt_text;
use crate::ui::input::{TextInput, TextModel};
use crate::ui::line::{span, Span, Tone};

verus! {

/// What the form wants its owner to do.
#[derive(Debug, Clone, Copy, PartialEq, Eq, Structural)]
pub enum SetupAction {
    Submit,
}

/// The setup form.
#[derive(Debug)]
pub struct SetupForm {
    pub host: TextInput,
    pub api_key: TextInput,
    /// The focused field: 0 = host, 1 = API key.
    pub focus: usize,
    pub error: Option<String>,
    /// Set while a connect attempt is in flight; input is ignored.
    pub busy: bool,
}

/// The setup form as values.
#[verifier::ext_equal]
pub struct SetupModel {
    pub host: TextModel,
    pub api_key: TextModel,
    pub focus: usize,
    pub error: Option<Seq<char>>,
    pub busy: bool,
}

impl View for SetupForm {
    type V = SetupModel;

    open spec fn view(&self) -> SetupModel {
        SetupModel {
            host: self.host@,
            api_key: self.api_key@,
            focus: self.focus,
            error: opt_text(self.error),
            busy: self.busy,
        }
    }
}

impl SetupModel {
    /// A form with the configured host and no key, on the host.
    pub open spec fn opened(host: Seq<char>) -> SetupModel {
        SetupModel {
            host: TextModel { value: host, focused: true, masked: false },
            api_key: TextModel { value: Seq::empty(), focused: false, masked: true },
            focus: 0,
            error: None,
            busy: false,
        }
    }

    /// One of the two fields is focused, and only that one is drawn so.
    pub open spec fn wf(self) -> bool {
        self.focus < 2 && self.host.focused == (self.focus == 0) && self.api_key.focused == (
        self.focus == 1)
    }

    /// Whether the form can be submitted.
    pub open spec fn complete(self) -> bool {
        self.host.value.len() > 0 && problem(self.host.value) is None && self.api_key.value.len()
            > 0
    }

    pub open spec fn on_field(self, focus: usize) -> SetupModel {
        SetupModel {
            focus,
            host: self.host.with_focus(focus == 0),
            api_key: self.api_key.with_focus(focus != 0),
            ..self
        }
    }

    /// The other field.
    pub open spec fn other_field(self) -> usize {
        if self.focus == 0 {
            1
        } else {
            0
        }
    }

    /// Whether a key submits the form: enter on the key field of a complete
    /// one.
    pub open spec fn submits(self, key: KeyEvent) -> bool {
        !self.busy && key.code == KeyCode::Enter && self.focus == 1 && self.complete()
    }

    /// The form after a key.
    pub open spec fn after_key(self, key: KeyEvent) -> SetupModel {
        if self.busy || self.submits(key) {
            self
        } else {
            match key.code {
                KeyCode::Enter
                | KeyCode::Tab
                | KeyCode::Down
                | KeyCode::BackTab
                | KeyCode::Up => self.on_field(self.other_field()),
                _ => if self.focus == 0 {
                    SetupModel { host: self.host.typed(key), ..self }
                } else {
                    SetupModel { api_key: self.api_key.typed(key), ..self }
                },
            }
        }
    }

    /// The line below the host: what is wrong with it, or that traffic to it
    /// is unencrypted.
    pub open spec fn host_note(self) -> Option<Seq<char>> {
        if problem(self.host.value) is Some {
            Some(" "@ + problem(self.host.value)->0)
        } else if plain(self.host.value) {
            Some(" http:// is unencrypted; prefer https://"@)
        } else {
            None
        }
    }

    /// The line below the form.
    pub open spec fn status(self) -> (Seq<char>, Tone) {
        if self.busy {
            (" connecting..."@, Tone::Dim)
        } else if self.error is Some {
            (" "@ + self.error->0, Tone::Error)
        } else {
            (" enter: next/submit  tab: next field"@, Tone::Dim)
        }
    }
}

/// Keys keep one field focused.
pub proof fn law_one_field_is_focused(form: SetupModel, key: KeyEvent)
    requires
        form.wf(),
    ensures
        form.after_key(key).wf(),
{
}

impl SetupForm {
    pub fn from_config(config: &SonarrConfig) -> (form: SetupForm)
        ensures
            form@ == SetupModel::opened(config.host@),
            form@.wf(),
    {
        let mut host: TextInput = TextInput::with_value(config.host.as_str());
        host.focused = true;
        // Never prefilled: the stored key lives in the keyring and is only
        // read by the automatic connect.
        let mut api_key: TextInput = TextInput::new();
        api_key.masked = true;
        SetupForm { host, api_key, focus: 0, error: None, busy: false }
    }

    pub fn host_error(&self) -> (message: Option<String>)
        ensures
            opt_text(message) == problem(self@.host.value),
    {
        host_problem(self.host.value())
    }

    /// Plain http means the API key crosses the network unencrypted.
    /// Legitimate on a trusted LAN, but worth a visible nudge.
    pub fn plain_http(&self) -> (answer: bool)
        ensures
            answer == plain(self@.host.value),
    {
        is_plain_http(self.host.value())
    }

    pub fn valid(&self) -> (answer: bool)
        ensures
            answer == self@.complete(),
    {
        !self.host.value().is_empty() && self.host_error().is_none()
            && !self.api_key.value().is_empty()
    }

    /// The field that keys go to.
    pub fn focused_input(&mut self) -> (input: &mut TextInput)
        ensures
            input@ == (if old(self)@.focus == 0 {
                old(self)@.host
            } else {
                old(self)@.api_key
            }),
            final(self)@ == (if old(self)@.focus == 0 {
                SetupModel { host: final(input)@, ..old(self)@ }
            } else {
                SetupModel { api_key: final(input)@, ..old(self)@ }
            }),
    {
        if self.focus == 0 {
            &mut self.host
        } else {
            &mut self.api_key
        }
    }

    /// Put the focus on a field.
    pub fn set_focus(&mut self, focus: usize)
        ensures
            final(self)@ == old(self)@.on_field(focus),
    {
        self.focus = focus;
        self.host.focused = false;
        self.api_key.focused = false;
        self.focused_input().focused = true;
    }

    pub fn on_key(&mut self, key: KeyEvent) -> (action: Option<SetupAction>)
        requires
            old(self)@.wf(),
        ensures
            final(self)@ == old(self)@.after_key(key),
            action == (if old(self)@.submits(key) {
                Some(SetupAction::Submit)
            } else {
                None
            }),
            final(self)@.wf(),
    {
        if self.busy {
            return None;
        }
        let other: usize = if self.focus == 0 {
            1
        } else {
            0
        };
        match key.code {
            KeyCode::Enter => {
                if self.focus == 1 && self.valid() {
                    return Some(SetupAction::Submit);
                }
                self.set_focus(other);
            },
            KeyCode::Tab | KeyCode::Down | KeyCode::BackTab | KeyCode::Up => {
                self.set_focus(other);
            },
            _ => {
                self.focused_input().on_key(key);
            },
        }
        None
    }

    /// The line below the host.
    pub fn note(&self) -> (line: Option<Span>)
        ensures
            match line {
                Some(line) => self@.host_note() == Some(line@.0) && line@.1 == Tone::Dim,
                None => self@.host_note() is None,
            },
    {
        if let Some(err) = self.host_error() {
            let mut text: String = " ".to_owned();
            text.append(err.as_str());
            return Some(span(text, Tone::Dim));
        }
        if self.plain_http() {
            return Some(span(" http:// is unencrypted; prefer https://".to_owned(), Tone::Dim));
        }
        None
    }

    /// The line below the form.
    pub fn status(&self) -> (line: Span)
        ensures
            line@ == self@.status(),
    {
        if self.busy {
            return span(" connecting...".to_owned(), Tone::Dim);
        }
        match &self.error {
            Some(err) => {
                let mut text: String = " ".to_owned();
                text.append(err.as_str());
                span(text, Tone::Error)
            },
            None => span(" enter: next/submit  tab: next field".to_owned(), Tone::Dim),
        }
    }
}

} // verus!
