//! First-run / re-auth form: host, username and password, with a single Connect
//! button, since there is nowhere to cancel back to on the entry screen.

use vstd::prelude::*;
use vstd::string::*;

use crate::app::{KeyCode, KeyEvent};
use crate::config::JellyfinConfig;
use crate::net::{host_problem, is_plain_http, plain, problem};
use crate::text::opt_text;
use crate::ui::form::{field_models, Field, FieldModel, Form, FormEvent, FormModel};
use crate::ui::input::TextModel;
use crate::ui::line::{span, Span, Tone};

verus! {

/// Field ids; values are read by id.
pub const HOST: usize = 0;

pub const USERNAME: usize = 1;

pub const PASSWORD: usize = 2;

/// What the form wants its owner to do.
#[derive(Debug, Clone, Copy, PartialEq, Eq, Structural)]
pub enum LoginAction {
    Submit,
    /// Esc pressed while an auth attempt is in flight: abandon it instead of
    /// leaving the form locked until the request timeout.
    Cancel,
}

/// The login form.
#[derive(Debug)]
pub struct LoginForm {
    pub form: Form,
    pub error: Option<String>,
    /// Set while an auth attempt is in flight; input is ignored except esc.
    pub busy: bool,
}

/// The login form as values.
#[verifier::ext_equal]
pub struct LoginModel {
    pub form: FormModel,
    pub error: Option<Seq<char>>,
    pub busy: bool,
}

impl View for LoginForm {
    type V = LoginModel;

    open spec fn view(&self) -> LoginModel {
        LoginModel { form: self.form@, error: opt_text(self.error), busy: self.busy }
    }
}

impl LoginModel {
    /// A form with the configured host and user, and no password.
    pub open spec fn opened(host: Seq<char>, username: Seq<char>) -> LoginModel {
        LoginModel {
            form: FormModel {
                cancel: false,
                ..FormModel::opened(
                    seq![
                        FieldModel::text(HOST, "Host", host),
                        FieldModel::text(USERNAME, "Username", username),
                        FieldModel {
                            input: TextModel {
                                value: Seq::empty(),
                                focused: false,
                                masked: true,
                            },
                            ..FieldModel::text(PASSWORD, "Password", Seq::empty())
                        },
                    ],
                    "Connect",
                )
            },
            error: None,
            busy: false,
        }
    }

    pub open spec fn host(self) -> Seq<char> {
        self.form.text(HOST)
    }

    pub open spec fn username(self) -> Seq<char> {
        self.form.text(USERNAME)
    }

    pub open spec fn password(self) -> Seq<char> {
        self.form.text(PASSWORD)
    }

    /// Why the form can't be submitted yet. The password may be left blank: an
    /// empty one means that none is kept.
    pub open spec fn invalid(self) -> Option<Seq<char>> {
        if self.host().len() == 0 {
            Some("enter the host"@)
        } else if problem(self.host()) is Some {
            problem(self.host())
        } else if self.username().len() == 0 {
            Some("enter the username"@)
        } else {
            None
        }
    }

    /// The form after a key.
    pub open spec fn after_key(self, key: KeyEvent) -> LoginModel {
        if self.busy {
            self
        } else {
            let after = LoginModel { form: self.form.after_key(key), ..self };
            match self.form.key_event(key) {
                FormEvent::Save => if after.invalid() is Some {
                    LoginModel { error: after.invalid(), ..after }
                } else {
                    after
                },
                FormEvent::Changed(_) => LoginModel { error: None, ..after },
                _ => after,
            }
        }
    }

    /// What a key asks of the form's owner.
    pub open spec fn action(self, key: KeyEvent) -> Option<LoginAction> {
        if self.busy {
            if key.code == KeyCode::Esc {
                Some(LoginAction::Cancel)
            } else {
                None
            }
        } else if self.form.key_event(key) == FormEvent::Save && self.invalid() is None {
            Some(LoginAction::Submit)
        } else {
            None
        }
    }

    /// The line below the form.
    pub open spec fn status(self) -> (Seq<char>, Tone) {
        if self.busy {
            (" authenticating..."@, Tone::Dim)
        } else if self.error is Some {
            (" "@ + self.error->0, Tone::Error)
        } else if problem(self.host()) is Some {
            (" "@ + problem(self.host())->0, Tone::Dim)
        } else if plain(self.host()) {
            (" http:// is unencrypted; prefer https://"@, Tone::Dim)
        } else {
            (" enter: connect   tab: next field"@, Tone::Dim)
        }
    }
}

/// A form is submitted only when it is complete and valid, and only while no
/// attempt is in flight; an attempt is given up only while one is.
pub proof fn law_submitted_logins_are_complete(form: LoginModel, key: KeyEvent)
    ensures
        form.action(key) == Some(LoginAction::Submit) ==> !form.busy && form.host().len() > 0
            && problem(form.host()) is None && form.username().len() > 0,
        form.action(key) == Some(LoginAction::Cancel) ==> form.busy,
        form.busy ==> form.after_key(key) == form,
{
}

impl LoginForm {
    pub fn from_config(config: &JellyfinConfig) -> (form: LoginForm)
        ensures
            form@ == LoginModel::opened(config.host@, config.username@),
            form@.form.wf(),
    {
        proof {
            reveal_strlit("");
            assert(""@ =~= Seq::<char>::empty());
        }
        let fields: Vec<Field> = vec![
            Field::text(HOST, "Host", config.host.as_str()),
            Field::text(USERNAME, "Username", config.username.as_str()),
            // Never prefilled: the stored password lives in the keyring and is
            // only read by the automatic login.
            Field::text(PASSWORD, "Password", "").masked(),
        ];
        assert(field_models(fields@) =~= LoginModel::opened(
            config.host@,
            config.username@,
        ).form.fields);
        LoginForm { form: Form::new(fields, "Connect").without_cancel(), error: None, busy: false }
    }

    pub fn host(&self) -> (host: String)
        ensures
            host@ == self@.host(),
    {
        self.form.text(HOST)
    }

    pub fn username(&self) -> (username: String)
        ensures
            username@ == self@.username(),
    {
        self.form.text(USERNAME)
    }

    pub fn password(&self) -> (password: String)
        ensures
            password@ == self@.password(),
    {
        self.form.text(PASSWORD)
    }

    /// True while a field (not the action row) has focus, so the shell knows a
    /// keystroke is text input and not a global shortcut.
    pub fn action_row_focused(&self) -> (answer: bool)
        ensures
            answer == !self@.form.on_buttons(),
    {
        !self.form.action_row_focused()
    }

    /// What is wrong with the host; an empty one is just not there yet.
    pub fn host_error(&self) -> (message: Option<String>)
        ensures
            opt_text(message) == problem(self@.host()),
    {
        host_problem(self.host().as_str())
    }

    /// Plain http means the password and token cross the network unencrypted.
    /// Legitimate on a trusted LAN, but worth a visible nudge.
    pub fn plain_http(&self) -> (answer: bool)
        ensures
            answer == plain(self@.host()),
    {
        is_plain_http(self.host().as_str())
    }

    /// Why the form can't be submitted yet, or `None` when it's ready.
    pub fn invalid_reason(&self) -> (reason: Option<String>)
        ensures
            opt_text(reason) == self@.invalid(),
    {
        if self.host().as_str().is_empty() {
            return Some("enter the host".to_owned());
        }
        let err: Option<String> = self.host_error();
        if err.is_some() {
            return err;
        }
        if self.username().as_str().is_empty() {
            return Some("enter the username".to_owned());
        }
        None
    }

    pub fn on_key(&mut self, key: KeyEvent) -> (action: Option<LoginAction>)
        requires
            old(self)@.form.wf(),
        ensures
            final(self)@ == old(self)@.after_key(key),
            action == old(self)@.action(key),
            final(self)@.form.wf(),
    {
        if self.busy {
            // A submit against a black-holed host would otherwise lock the
            // form until the request timeout; Esc abandons the attempt and
            // returns control.
            return if key.code == KeyCode::Esc {
                Some(LoginAction::Cancel)
            } else {
                None
            };
        }
        match self.form.on_key(key) {
            FormEvent::Save => {
                assert(self@.form == old(self)@.form);
                match self.invalid_reason() {
                    Some(reason) => {
                        self.error = Some(reason);
                        None
                    },
                    None => Some(LoginAction::Submit),
                }
            },
            // Editing a field clears a stale validation error.
            FormEvent::Changed(_) => {
                self.error = None;
                None
            },
            // Esc has nowhere to go on the entry screen.
            FormEvent::Cancel | FormEvent::Consumed => None,
        }
    }

    /// The line below the form.
    pub fn status(&self) -> (line: Span)
        ensures
            line@ == self@.status(),
    {
        if self.busy {
            return span(" authenticating...".to_owned(), Tone::Dim);
        }
        if let Some(err) = &self.error {
            let mut text: String = " ".to_owned();
            text.append(err.as_str());
            return span(text, Tone::Error);
        }
        if let Some(err) = self.host_error() {
            let mut text: String = " ".to_owned();
            text.append(err.as_str());
            return span(text, Tone::Dim);
        }
        if self.plain_http() {
            return span(" http:// is unencrypted; prefer https://".to_owned(), Tone::Dim);
        }
        span(" enter: connect   tab: next field".to_owned(), Tone::Dim)
    }
}

} // verus!
