//! First-run / re-auth form: server host plus API key, with a single Connect
//! button, since there is nowhere to cancel back to on the entry screen.

use vstd::prelude::*;
use vstd::string::*;

use crate::app::KeyEvent;
use crate::config::RadarrConfig;
use crate::net::{host_problem, is_plain_http, plain, problem};
use crate::text::opt_text;
use crate::ui::form::{field_models, Field, FieldModel, Form, FormEvent, FormModel};
use crate::ui::input::TextModel;
use crate::ui::line::{span, Span, Tone};

verus! {

/// Field ids; values are read by id.
pub const HOST: usize = 0;

pub const API_KEY: usize = 1;

/// What the form wants its owner to do.
#[derive(Debug, Clone, Copy, PartialEq, Eq, Structural)]
pub enum SetupAction {
    Submit,
}

/// The setup form.
#[derive(Debug)]
pub struct SetupForm {
    pub form: Form,
    pub error: Option<String>,
    /// Set while a connect attempt is in flight; input is ignored.
    pub busy: bool,
}

/// The setup form as values.
#[verifier::ext_equal]
pub struct SetupModel {
    pub form: FormModel,
    pub error: Option<Seq<char>>,
    pub busy: bool,
}

impl View for SetupForm {
    type V = SetupModel;

    open spec fn view(&self) -> SetupModel {
        SetupModel { form: self.form@, error: opt_text(self.error), busy: self.busy }
    }
}

impl SetupModel {
    /// A form with the configured host and no key.
    pub open spec fn opened(host: Seq<char>) -> SetupModel {
        SetupModel {
            form: FormModel {
                cancel: false,
                ..FormModel::opened(
                    seq![
                        FieldModel::text(HOST, "Host", host),
                        FieldModel {
                            input: TextModel {
                                value: Seq::empty(),
                                focused: false,
                                masked: true,
                            },
                            ..FieldModel::text(API_KEY, "API key", Seq::empty())
                        },
                    ],
                    "Connect",
                )
            },
            error: None,
            busy: false,
        }
    }

    pub open spec fn host(self) -> Seq<char> {
        self.form.text(HOST)
    }

    pub open spec fn api_key(self) -> Seq<char> {
        self.form.text(API_KEY)
    }

    /// Why the form can't be submitted yet. The key is required here: nothing
    /// is stored yet.
    pub open spec fn invalid(self) -> Option<Seq<char>> {
        if self.host().len() == 0 {
            Some("enter the host"@)
        } else if problem(self.host()) is Some {
            problem(self.host())
        } else if self.api_key().len() == 0 {
            Some("enter the API key"@)
        } else {
            None
        }
    }

    /// The form after a key.
    pub open spec fn after_key(self, key: KeyEvent) -> SetupModel {
        if self.busy {
            self
        } else {
            let after = SetupModel { form: self.form.after_key(key), ..self };
            match self.form.key_event(key) {
                FormEvent::Save => if after.invalid() is Some {
                    SetupModel { error: after.invalid(), ..after }
                } else {
                    after
                },
                FormEvent::Changed(_) => SetupModel { error: None, ..after },
                _ => after,
            }
        }
    }

    /// Whether a key submits the form.
    pub open spec fn submits(self, key: KeyEvent) -> bool {
        !self.busy && self.form.key_event(key) == FormEvent::Save && self.invalid() is None
    }

    /// The line below the form.
    pub open spec fn status(self) -> (Seq<char>, Tone) {
        if self.busy {
            (" connecting..."@, Tone::Dim)
        } else if self.error is Some {
            (" "@ + self.error->0, Tone::Error)
        } else if problem(self.host()) is Some {
            (" "@ + problem(self.host())->0, Tone::Dim)
        } else if plain(self.host()) {
            (" http:// is unencrypted; prefer https://"@, Tone::Dim)
        } else {
            (" enter: connect   tab: next field"@, Tone::Dim)
        }
    }
}

/// A form is submitted exactly when it is complete and valid: with a valid
/// address and a key.
pub proof fn law_submitted_forms_are_complete(form: SetupModel, key: KeyEvent)
    ensures
        form.submits(key) ==> form.host().len() > 0 && problem(form.host()) is None
            && form.api_key().len() > 0,
{
}

impl SetupForm {
    pub fn from_config(config: &RadarrConfig) -> (form: SetupForm)
        ensures
            form@ == SetupModel::opened(config.host@),
            form@.form.wf(),
    {
        proof {
            reveal_strlit("");
            assert(""@ =~= Seq::<char>::empty());
        }
        let fields: Vec<Field> = vec![
            Field::text(HOST, "Host", config.host.as_str()),
            // Never prefilled: the stored key lives in the keyring and is only
            // read by the automatic connect.
            Field::text(API_KEY, "API key", "").masked(),
        ];
        assert(field_models(fields@) =~= SetupModel::opened(config.host@).form.fields);
        SetupForm { form: Form::new(fields, "Connect").without_cancel(), error: None, busy: false }
    }

    pub fn host(&self) -> (host: String)
        ensures
            host@ == self@.host(),
    {
        self.form.text(HOST)
    }

    pub fn api_key(&self) -> (key: String)
        ensures
            key@ == self@.api_key(),
    {
        self.form.text(API_KEY)
    }

    pub fn host_error(&self) -> (message: Option<String>)
        ensures
            opt_text(message) == problem(self@.host()),
    {
        host_problem(self.host().as_str())
    }

    /// Plain http means the API key crosses the network unencrypted.
    /// Legitimate on a trusted LAN, but worth a visible nudge.
    pub fn plain_http(&self) -> (answer: bool)
        ensures
            answer == plain(self@.host()),
    {
        is_plain_http(self.host().as_str())
    }

    /// Why the form can't be submitted yet, or `None` when it's ready.
    pub fn invalid_reason(&self) -> (reason: Option<String>)
        ensures
            opt_text(reason) == self@.invalid(),
    {
        if self.host().as_str().is_empty() {
            return Some("enter the host".to_owned());
        }
        let err: Option<String> = self.host_error();
        if err.is_some() {
            return err;
        }
        if self.api_key().as_str().is_empty() {
            return Some("enter the API key".to_owned());
        }
        None
    }

    pub fn on_key(&mut self, key: KeyEvent) -> (action: Option<SetupAction>)
        requires
            old(self)@.form.wf(),
        ensures
            final(self)@ == old(self)@.after_key(key),
            action == (if old(self)@.submits(key) {
                Some(SetupAction::Submit)
            } else {
                None
            }),
            final(self)@.form.wf(),
    {
        if self.busy {
            return None;
        }
        match self.form.on_key(key) {
            FormEvent::Save => {
                assert(self@.form == old(self)@.form);
                match self.invalid_reason() {
                    Some(reason) => {
                        self.error = Some(reason);
                        None
                    },
                    None => Some(SetupAction::Submit),
                }
            },
            // Editing a field clears a stale validation error.
            FormEvent::Changed(_) => {
                self.error = None;
                None
            },
            // Esc has nowhere to go on the entry screen.
            FormEvent::Cancel | FormEvent::Consumed => None,
        }
    }

    /// The line below the form.
    pub fn status(&self) -> (line: Span)
        ensures
            line@ == self@.status(),
    {
        if self.busy {
            return span(" connecting...".to_owned(), Tone::Dim);
        }
        if let Some(err) = &self.error {
            let mut text: String = " ".to_owned();
            text.append(err.as_str());
            return span(text, Tone::Error);
        }
        if let Some(err) = self.host_error() {
            let mut text: String = " ".to_owned();
            text.append(err.as_str());
            return span(text, Tone::Dim);
        }
        if self.plain_http() {
            return span(" http:// is unencrypted; prefer https://".to_owned(), Tone::Dim);
        }
        span(" enter: connect   tab: next field".to_owned(), Tone::Dim)
    }
}

} // verus!
