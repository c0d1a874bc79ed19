//! The credentials form of one server, and what a successful connect with it
//! leaves behind.

use vstd::prelude::*;
use vstd::string::*;

use crate::apps::settings::Setting;
use crate::config::{Config, ConfigModel, JellyfinModel};
use crate::net::{host_problem, is_plain_http, plain, problem};
use crate::secrets::{JELLYFIN_PASSWORD, JELLYFIN_TOKEN, RADARR_API_KEY, SONARR_API_KEY};
use crate::text::opt_text;
use crate::ui::form::{field_models, Field, FieldModel, Form, FormModel};
use crate::ui::input::TextModel;
use crate::ui::line::{span, Span, Tone};

verus! {

/// Field ids of the credentials form; values are read by id, so that the
/// absent username row of Radarr and Sonarr never shifts what the others read.
pub const HOST: usize = 0;

pub const USERNAME: usize = 1;

pub const SECRET: usize = 2;

/// The configured host of a server, `None` for a setting that is none.
pub open spec fn host_of(setting: Setting, config: ConfigModel) -> Option<Seq<char>> {
    match setting {
        Setting::Jellyfin => Some(config.jellyfin.host),
        Setting::Radarr => Some(config.radarr_host),
        Setting::Sonarr => Some(config.sonarr_host),
        Setting::Theme | Setting::Accent => None,
    }
}

/// The configured host for a backend row, or `None` for Theme/Accent.
pub fn backend_host(setting: Setting, config: &Config) -> (host: Option<&str>)
    ensures
        match host {
            Some(host) => host_of(setting, config@) == Some(host@),
            None => host_of(setting, config@) is None,
        },
{
    match setting {
        Setting::Jellyfin => Some(config.jellyfin.host.as_str()),
        Setting::Radarr => Some(config.radarr.host.as_str()),
        Setting::Sonarr => Some(config.sonarr.host.as_str()),
        Setting::Theme | Setting::Accent => None,
    }
}

/// The display label for a backend row.
pub open spec fn label_of(setting: Setting) -> &'static str {
    match setting {
        Setting::Jellyfin => "Jellyfin",
        Setting::Radarr => "Radarr",
        Setting::Sonarr => "Sonarr",
        Setting::Theme | Setting::Accent => "",
    }
}

/// The display label for a backend row.
pub fn backend_label(setting: Setting) -> (label: &'static str)
    ensures
        label == label_of(setting),
{
    match setting {
        Setting::Jellyfin => "Jellyfin",
        Setting::Radarr => "Radarr",
        Setting::Sonarr => "Sonarr",
        Setting::Theme | Setting::Accent => "",
    }
}

/// The keyring name of a server's secret.
pub open spec fn secret_name(backend: Setting) -> &'static str {
    match backend {
        Setting::Jellyfin => JELLYFIN_PASSWORD,
        Setting::Radarr => RADARR_API_KEY,
        Setting::Sonarr => SONARR_API_KEY,
        Setting::Theme | Setting::Accent => "",
    }
}

/// The keyring key holding a backend's stored secret.
pub fn secret_key(backend: Setting) -> (key: &'static str)
    ensures
        key == secret_name(backend),
{
    match backend {
        Setting::Jellyfin => JELLYFIN_PASSWORD,
        Setting::Radarr => RADARR_API_KEY,
        Setting::Sonarr => SONARR_API_KEY,
        Setting::Theme | Setting::Accent => "",
    }
}

/// The credential's label: the password for Jellyfin, the API key otherwise.
pub open spec fn secret_label_of(backend: Setting) -> &'static str {
    match backend {
        Setting::Jellyfin => "Password",
        _ => "API key",
    }
}

/// The credential's label: the password for Jellyfin, the API key otherwise.
pub fn secret_label(backend: Setting) -> (label: &'static str)
    ensures
        label == secret_label_of(backend),
{
    match backend {
        Setting::Jellyfin => "Password",
        _ => "API key",
    }
}

/// The open credentials form: the fields, and whether a connect attempt is in
/// flight or has failed.
#[derive(Debug)]
pub struct BackendEditor {
    pub backend: Setting,
    pub form: Form,
    pub error: Option<String>,
    /// Set while a connect attempt is in flight; keys other than esc are
    /// ignored.
    pub busy: bool,
}

/// The credentials form as values.
pub struct BackendModel {
    pub backend: Setting,
    pub form: FormModel,
    pub error: Option<Seq<char>>,
    pub busy: bool,
}

impl View for BackendEditor {
    type V = BackendModel;

    open spec fn view(&self) -> BackendModel {
        BackendModel {
            backend: self.backend,
            form: self.form@,
            error: opt_text(self.error),
            busy: self.busy,
        }
    }
}

/// The rows of a server's form: the host, the user name where there is one and
/// the secret, which is never prefilled.
pub open spec fn credential_fields(backend: Setting, config: ConfigModel) -> Seq<FieldModel> {
    let host = match host_of(backend, config) {
        Some(host) => host,
        None => Seq::empty(),
    };
    let secret = FieldModel {
        input: TextModel { value: Seq::empty(), focused: false, masked: true },
        ..FieldModel::text(SECRET, secret_label_of(backend), Seq::empty())
    };
    if backend == Setting::Jellyfin {
        seq![
            FieldModel::text(HOST, "Host", host),
            FieldModel::text(USERNAME, "Username", config.jellyfin.username),
            secret,
        ]
    } else {
        seq![FieldModel::text(HOST, "Host", host), secret]
    }
}

impl BackendModel {
    pub open spec fn opened(backend: Setting, config: ConfigModel) -> BackendModel {
        BackendModel {
            backend,
            form: FormModel::opened(credential_fields(backend, config), "Save"),
            error: None,
            busy: false,
        }
    }

    pub open spec fn host(self) -> Seq<char> {
        self.form.text(HOST)
    }

    /// Why the form can't be submitted yet. The secret may be left blank: the
    /// server decides on it.
    pub open spec fn invalid(self) -> Option<Seq<char>> {
        if self.host().len() == 0 {
            Some("enter the host"@)
        } else if problem(self.host()) is Some {
            problem(self.host())
        } else if self.backend == Setting::Jellyfin && self.form.text(USERNAME).len() == 0 {
            Some("enter the username"@)
        } else {
            None
        }
    }

    /// The line below the form.
    pub open spec fn status(self) -> (Seq<char>, Tone) {
        if self.busy {
            ("  connecting..."@, Tone::Dim)
        } else if self.error is Some {
            ("  "@ + self.error->0, Tone::Error)
        } else if problem(self.host()) is Some {
            ("  "@ + problem(self.host())->0, Tone::Dim)
        } else if plain(self.host()) {
            ("  http:// is unencrypted; prefer https://"@, Tone::Dim)
        } else {
            ("  enter: save   esc: back"@, Tone::Dim)
        }
    }

    /// What a submitted form asks for, with the device's identity.
    pub open spec fn request(self, config: ConfigModel) -> SaveModel {
        SaveModel {
            backend: self.backend,
            host: self.host(),
            username: if self.backend == Setting::Jellyfin {
                Some(self.form.text(USERNAME))
            } else {
                None
            },
            typed_secret: self.form.text(SECRET),
            device: config.jellyfin.device,
            device_id: config.jellyfin.device_id,
        }
    }
}

impl BackendEditor {
    pub fn from_config(backend: Setting, config: &Config) -> (editor: BackendEditor)
        ensures
            editor@ == BackendModel::opened(backend, config@),
            editor@.form.wf(),
    {
        proof {
            reveal_strlit("");
            assert(""@ =~= Seq::<char>::empty());
        }
        let host: &str = match backend_host(backend, config) {
            Some(host) => host,
            None => "",
        };
        let mut fields: Vec<Field> = vec![Field::text(HOST, "Host", host)];
        if backend == Setting::Jellyfin {
            fields.push(Field::text(USERNAME, "Username", config.jellyfin.username.as_str()));
        }
        // Never prefilled, never backfilled: the typed value is used as it is
        // on every save, so that a blank one fails to authenticate instead of
        // reusing the stored secret.
        fields.push(Field::text(SECRET, secret_label(backend), "").masked());
        assert(field_models(fields@) =~= credential_fields(backend, config@));
        BackendEditor { backend, form: Form::new(fields, "Save"), error: None, busy: false }
    }

    pub fn host_value(&self) -> (host: String)
        ensures
            host@ == self@.host(),
    {
        self.form.text(HOST)
    }

    pub fn host_error(&self) -> (message: Option<String>)
        ensures
            opt_text(message) == problem(self@.host()),
    {
        host_problem(self.host_value().as_str())
    }

    /// Plain http means the credential crosses the network unencrypted.
    /// Legitimate on a trusted LAN, but worth a visible nudge.
    pub fn plain_http(&self) -> (answer: bool)
        ensures
            answer == plain(self@.host()),
    {
        is_plain_http(self.host_value().as_str())
    }

    /// Why the form can't be submitted yet, or `None` when it's ready.
    pub fn invalid_reason(&self) -> (reason: Option<String>)
        ensures
            opt_text(reason) == self@.invalid(),
    {
        if self.host_value().as_str().is_empty() {
            return Some("enter the host".to_owned());
        }
        let err: Option<String> = self.host_error();
        if err.is_some() {
            return err;
        }
        if self.backend == Setting::Jellyfin && self.form.text(USERNAME).as_str().is_empty() {
            return Some("enter the username".to_owned());
        }
        None
    }

    /// The line below the form.
    pub fn status(&self) -> (line: Span)
        ensures
            line@ == self@.status(),
    {
        if self.busy {
            return span("  connecting...".to_owned(), Tone::Dim);
        }
        if let Some(err) = &self.error {
            let mut text: String = "  ".to_owned();
            text.append(err.as_str());
            return span(text, Tone::Error);
        }
        if let Some(err) = self.host_error() {
            let mut text: String = "  ".to_owned();
            text.append(err.as_str());
            return span(text, Tone::Dim);
        }
        if self.plain_http() {
            return span("  http:// is unencrypted; prefer https://".to_owned(), Tone::Dim);
        }
        span("  enter: save   esc: back".to_owned(), Tone::Dim)
    }

    /// What the submitted form asks for.
    pub fn request(&self, config: &Config) -> (request: SaveRequest)
        ensures
            request@ == self@.request(config@),
    {
        SaveRequest {
            backend: self.backend,
            host: self.form.text(HOST),
            // A user name only exists (and is read) for Jellyfin.
            username: if self.backend == Setting::Jellyfin {
                Some(self.form.text(USERNAME))
            } else {
                None
            },
            typed_secret: self.form.text(SECRET),
            device: config.jellyfin.device.clone(),
            device_id: config.jellyfin.device_id.clone(),
        }
    }
}

/// A snapshot of a credentials form, taken when it is submitted.
pub struct SaveRequest {
    pub backend: Setting,
    pub host: String,
    pub username: Option<String>,
    pub typed_secret: String,
    pub device: String,
    pub device_id: String,
}

/// A snapshot as values.
#[verifier::ext_equal]
pub struct SaveModel {
    pub backend: Setting,
    pub host: Seq<char>,
    pub username: Option<Seq<char>>,
    pub typed_secret: Seq<char>,
    pub device: Seq<char>,
    pub device_id: Seq<char>,
}

impl View for SaveRequest {
    type V = SaveModel;

    open spec fn view(&self) -> SaveModel {
        SaveModel {
            backend: self.backend,
            host: self.host@,
            username: opt_text(self.username),
            typed_secret: self.typed_secret@,
            device: self.device@,
            device_id: self.device_id@,
        }
    }
}

/// What a connect to the server of a form is made with. The typed credential
/// is authoritative: it is never backfilled from the keyring, and no stored
/// session stands in for it.
pub enum ConnectCall {
    Jellyfin { host: String, username: String, password: String, device: String, device_id: String },
    Radarr { host: String, api_key: String },
    Sonarr { host: String, api_key: String },
}

/// A connect as values.
#[verifier::ext_equal]
pub enum ConnectModel {
    Jellyfin {
        host: Seq<char>,
        username: Seq<char>,
        password: Seq<char>,
        device: Seq<char>,
        device_id: Seq<char>,
    },
    Radarr { host: Seq<char>, api_key: Seq<char> },
    Sonarr { host: Seq<char>, api_key: Seq<char> },
}

impl View for ConnectCall {
    type V = ConnectModel;

    open spec fn view(&self) -> ConnectModel {
        match self {
            ConnectCall::Jellyfin { host, username, password, device, device_id } =>
                ConnectModel::Jellyfin {
                host: host@,
                username: username@,
                password: password@,
                device: device@,
                device_id: device_id@,
            },
            ConnectCall::Radarr { host, api_key } => ConnectModel::Radarr {
                host: host@,
                api_key: api_key@,
            },
            ConnectCall::Sonarr { host, api_key } => ConnectModel::Sonarr {
                host: host@,
                api_key: api_key@,
            },
        }
    }
}

/// What a successful connect tells: the address that the server was reached
/// under, and for Jellyfin the session it opened.
pub struct Connection {
    pub host: String,
    pub user_id: String,
    pub token: String,
}

/// A secret to store in the keyring: its name and its value.
pub type Secret = (&'static str, String);

/// Secrets as values.
pub open spec fn secret_models(secrets: Seq<Secret>) -> Seq<(&'static str, Seq<char>)> {
    secrets.map_values(|s: Secret| (s.0, s.1@))
}

impl SaveModel {
    /// The connect that validates the form.
    pub open spec fn connect(self) -> Option<ConnectModel> {
        match self.backend {
            Setting::Jellyfin => Some(
                ConnectModel::Jellyfin {
                    host: self.host,
                    username: match self.username {
                        Some(username) => username,
                        None => Seq::empty(),
                    },
                    password: self.typed_secret,
                    device: self.device,
                    device_id: self.device_id,
                },
            ),
            Setting::Radarr => Some(
                ConnectModel::Radarr { host: self.host, api_key: self.typed_secret },
            ),
            Setting::Sonarr => Some(
                ConnectModel::Sonarr { host: self.host, api_key: self.typed_secret },
            ),
            Setting::Theme | Setting::Accent => None,
        }
    }

    /// The settings after a successful connect.
    pub open spec fn applied(self, config: ConfigModel, reached: Connection) -> ConfigModel {
        match self.backend {
            Setting::Jellyfin => ConfigModel {
                jellyfin: JellyfinModel {
                    host: self.host,
                    username: match self.username {
                        Some(username) => username,
                        None => config.jellyfin.username,
                    },
                    user_id: reached.user_id@,
                    ..config.jellyfin
                },
                ..config
            },
            Setting::Radarr => ConfigModel { radarr_host: reached.host@, ..config },
            Setting::Sonarr => ConfigModel { sonarr_host: reached.host@, ..config },
            Setting::Theme | Setting::Accent => config,
        }
    }

    /// The secrets to store after a successful connect: the fresh session, and
    /// the typed secret unless it was left blank.
    pub open spec fn secrets(self, reached: Connection) -> Seq<(&'static str, Seq<char>)> {
        let session: Seq<(&'static str, Seq<char>)> = if self.backend == Setting::Jellyfin {
            seq![(JELLYFIN_TOKEN, reached.token@)]
        } else {
            seq![]
        };
        if self.typed_secret.len() > 0 {
            session.push((secret_name(self.backend), self.typed_secret))
        } else {
            session
        }
    }
}

/// The connect that validates a submitted form; a setting that is no server
/// has none.
pub fn connect_call(request: &SaveRequest) -> (call: Result<ConnectCall, String>)
    ensures
        match call {
            Ok(call) => request@.connect() == Some(call@),
            Err(err) => request@.connect() is None && err@ == "not a backend"@,
        },
{
    match request.backend {
        Setting::Jellyfin => Ok(
            ConnectCall::Jellyfin {
                host: request.host.clone(),
                username: match &request.username {
                    Some(username) => username.clone(),
                    None => String::new(),
                },
                password: request.typed_secret.clone(),
                device: request.device.clone(),
                device_id: request.device_id.clone(),
            },
        ),
        Setting::Radarr => Ok(
            ConnectCall::Radarr {
                host: request.host.clone(),
                api_key: request.typed_secret.clone(),
            },
        ),
        Setting::Sonarr => Ok(
            ConnectCall::Sonarr {
                host: request.host.clone(),
                api_key: request.typed_secret.clone(),
            },
        ),
        Setting::Theme | Setting::Accent => Err("not a backend".to_owned()),
    }
}

/// Take the outcome of the connect into the settings: nothing changes after a
/// failed one, and the secrets to store after a successful one come back.
pub fn validate_and_persist(
    request: SaveRequest,
    reply: Result<Connection, String>,
    config: &mut Config,
) -> (secrets: Result<Vec<Secret>, String>)
    ensures
        match reply {
            Err(err) => final(config)@ == old(config)@ && secrets is Err && secrets->Err_0@ == err@,
            Ok(reached) => if request@.connect() is None {
                final(config)@ == old(config)@ && secrets is Err && secrets->Err_0@
                    == "not a backend"@
            } else {
                final(config)@ == request@.applied(old(config)@, reached) && secrets is Ok
                    && secret_models(secrets->Ok_0@) == request@.secrets(reached)
            },
        },
{
    let reached: Connection = match reply {
        Ok(reached) => reached,
        Err(err) => {
            return Err(err);
        },
    };
    let mut secrets: Vec<Secret> = Vec::new();
    match request.backend {
        Setting::Jellyfin => {
            config.jellyfin.host = request.host;
            if let Some(username) = request.username {
                config.jellyfin.username = username;
            }
            config.jellyfin.user_id = reached.user_id;
            secrets.push((JELLYFIN_TOKEN, reached.token));
        },
        Setting::Radarr => {
            config.radarr.host = reached.host;
        },
        Setting::Sonarr => {
            config.sonarr.host = reached.host;
        },
        Setting::Theme | Setting::Accent => {
            return Err("not a backend".to_owned());
        },
    }
    if !request.typed_secret.as_str().is_empty() {
        secrets.push((secret_key(request.backend), request.typed_secret));
    }
    assert(secret_models(secrets@) =~= request@.secrets(reached));
    Ok(secrets)
}

} // verus!
