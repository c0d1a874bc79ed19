//! What is playing: the reports of the player, the now-playing bar, and the
//! session that playback and browsing share.

use vstd::prelude::*;
use vstd::string::*;

use crate::config::{TrackModel, TrackPreference};
use crate::secrets::JELLYFIN_PASSWORD;
use crate::text::{decimal, opt_text, padded, push_decimal, push_padded};
use crate::ui::line::{shown, span, Span, Tone};

verus! {

/// A moment of playback as it is shown: "1:23:45", or "23:45" below an hour.
pub open spec fn clock_text(secs: nat) -> Seq<char> {
    let rest = padded((secs % 60) as int, 2);
    if secs >= 3600 {
        decimal(secs / 3600) + ":"@ + padded((secs / 60 % 60) as int, 2) + ":"@ + rest
    } else {
        decimal(secs / 60) + ":"@ + rest
    }
}

/// "1:23:45" / "23:45" style clock for the now-playing bar.
pub fn format_clock(secs: u64) -> (text: String)
    ensures
        text@ == clock_text(secs as nat),
{
    let hours: u64 = secs / 3600;
    let minutes: u64 = (secs % 3600) / 60;
    let seconds: u64 = secs % 60;
    let mut text: String = String::new();
    if hours > 0 {
        push_decimal(&mut text, hours);
        text.append(":");
        push_padded(&mut text, minutes as i64, 2);
        assert(minutes == secs as nat / 60 % 60);
    } else {
        push_decimal(&mut text, minutes);
        assert(minutes == secs as nat / 60);
    }
    text.append(":");
    push_padded(&mut text, seconds as i64, 2);
    assert(text@ =~= clock_text(secs as nat));
    text
}

/// Which track was switched.
#[derive(Debug, Clone, Copy, PartialEq, Eq, Structural)]
pub enum TrackKind {
    Audio,
    Subtitle,
}

/// A report of the player.
#[derive(Debug)]
pub enum PlayerEvent {
    Started { title: String },
    /// Whole seconds from the start.
    Position { secs: u64 },
    Duration { secs: u64 },
    /// The user chose another track; remembered for this movie or show.
    TrackSwitched { override_key: String, kind: TrackKind, selection: TrackPreference },
    Failed(String),
    SessionExpired,
    Exited,
}

/// A report of the player as values.
#[verifier::ext_equal]
pub enum PlayerModel {
    Started { title: Seq<char> },
    Position { secs: u64 },
    Duration { secs: u64 },
    TrackSwitched { override_key: Seq<char>, kind: TrackKind, selection: TrackModel },
    Failed(Seq<char>),
    SessionExpired,
    Exited,
}

impl View for PlayerEvent {
    type V = PlayerModel;

    open spec fn view(&self) -> PlayerModel {
        match self {
            PlayerEvent::Started { title } => PlayerModel::Started { title: title@ },
            PlayerEvent::Position { secs } => PlayerModel::Position { secs: *secs },
            PlayerEvent::Duration { secs } => PlayerModel::Duration { secs: *secs },
            PlayerEvent::TrackSwitched { override_key, kind, selection } =>
                PlayerModel::TrackSwitched {
                override_key: override_key@,
                kind: *kind,
                selection: selection@,
            },
            PlayerEvent::Failed(message) => PlayerModel::Failed(message@),
            PlayerEvent::SessionExpired => PlayerModel::SessionExpired,
            PlayerEvent::Exited => PlayerModel::Exited,
        }
    }
}

/// What is playing.
#[derive(Debug)]
pub struct NowPlaying {
    pub title: String,
    pub position: u64,
    pub duration: Option<u64>,
}

/// What is playing, as values.
#[verifier::ext_equal]
pub struct NowModel {
    pub title: Seq<char>,
    pub position: u64,
    pub duration: Option<u64>,
}

impl View for NowPlaying {
    type V = NowModel;

    open spec fn view(&self) -> NowModel {
        NowModel { title: self.title@, position: self.position, duration: self.duration }
    }
}

/// What is playing, if anything, as values.
pub open spec fn opt_now(now: Option<NowPlaying>) -> Option<NowModel> {
    match now {
        Some(now) => Some(now@),
        None => None,
    }
}

impl NowModel {
    /// Something that has just been handed to the player.
    pub open spec fn starting(title: Seq<char>) -> NowModel {
        NowModel { title, position: 0, duration: None }
    }

    /// What is playing after a report.
    pub open spec fn after(self, event: PlayerModel) -> NowModel {
        match event {
            PlayerModel::Started { title } => NowModel::starting(title),
            PlayerModel::Position { secs } => NowModel { position: secs, ..self },
            PlayerModel::Duration { secs } => NowModel { duration: Some(secs), ..self },
            _ => self,
        }
    }

    /// "12:34 / 1:23:45", or just the position while the end is not known.
    pub open spec fn timing(self) -> Seq<char> {
        match self.duration {
            Some(duration) => clock_text(self.position as nat) + " / "@ + clock_text(
                duration as nat,
            ),
            None => clock_text(self.position as nat),
        }
    }

    /// The now-playing bar.
    pub open spec fn bar(self) -> Seq<(Seq<char>, Tone)> {
        seq![
            (" ⏵ "@, Tone::Selected),
            (self.title, Tone::Accent),
            ("  "@ + self.timing(), Tone::Fg),
            ("  s: stop"@, Tone::Dim),
        ]
    }
}

impl NowPlaying {
    pub fn starting(title: String) -> (now: NowPlaying)
        ensures
            now@ == NowModel::starting(title@),
    {
        NowPlaying { title, position: 0, duration: None }
    }

    /// The now-playing bar.
    pub fn bar(&self) -> (line: Vec<Span>)
        ensures
            shown(line@) == self@.bar(),
    {
        let mut timing: String = "  ".to_owned();
        timing.append(format_clock(self.position).as_str());
        if let Some(duration) = self.duration {
            timing.append(" / ");
            timing.append(format_clock(duration).as_str());
        }
        assert(timing@ =~= "  "@ + self@.timing());
        let mut line: Vec<Span> = Vec::new();
        line.push(span(" ⏵ ".to_owned(), Tone::Selected));
        line.push(span(self.title.clone(), Tone::Accent));
        line.push(span(timing, Tone::Fg));
        line.push(span("  s: stop".to_owned(), Tone::Dim));
        assert(shown(line@) =~= self@.bar());
        line
    }
}

// The session.

/// What to log in with. The secrets are empty until the stored ones are read,
/// off the render thread.
pub struct Credentials {
    pub host: String,
    pub username: String,
    pub password: String,
    pub device: String,
    pub device_id: String,
    pub token: String,
    pub user_id: String,
}

/// What to log in with, as values.
#[verifier::ext_equal]
pub struct CredentialsModel {
    pub host: Seq<char>,
    pub username: Seq<char>,
    pub password: Seq<char>,
    pub device: Seq<char>,
    pub device_id: Seq<char>,
    pub token: Seq<char>,
    pub user_id: Seq<char>,
}

impl View for Credentials {
    type V = CredentialsModel;

    open spec fn view(&self) -> CredentialsModel {
        CredentialsModel {
            host: self.host@,
            username: self.username@,
            password: self.password@,
            device: self.device@,
            device_id: self.device_id@,
            token: self.token@,
            user_id: self.user_id@,
        }
    }
}

/// A secret that was read; none reads as an empty one.
pub open spec fn or_empty(secret: Option<Seq<char>>) -> Seq<char> {
    match secret {
        Some(secret) => secret,
        None => Seq::empty(),
    }
}

/// The credentials with the secrets that were read from the keyring.
pub fn with_secrets(
    credentials: Credentials,
    token: Option<String>,
    password: Option<String>,
) -> (filled: Credentials)
    ensures
        filled@ == (CredentialsModel {
            token: or_empty(opt_text(token)),
            password: or_empty(opt_text(password)),
            ..credentials@
        }),
{
    let mut filled: Credentials = credentials;
    filled.token = match token {
        Some(token) => token,
        None => String::new(),
    };
    filled.password = match password {
        Some(password) => password,
        None => String::new(),
    };
    filled
}

/// A session that a login opened.
pub struct Session {
    pub host: String,
    pub user_id: String,
    pub token: String,
}

/// What happens to the stored password once the token is stored.
pub enum PasswordStep {
    /// Nothing: no password was typed on a form.
    Keep,
    /// An empty password field means that none is kept around.
    Delete(&'static str),
    Store(&'static str, String),
}

/// What happens to the stored password, as values.
#[verifier::ext_equal]
pub enum PasswordModel {
    Keep,
    Delete(&'static str),
    Store(&'static str, Seq<char>),
}

impl View for PasswordStep {
    type V = PasswordModel;

    open spec fn view(&self) -> PasswordModel {
        match self {
            PasswordStep::Keep => PasswordModel::Keep,
            PasswordStep::Delete(key) => PasswordModel::Delete(*key),
            PasswordStep::Store(key, password) => PasswordModel::Store(*key, password@),
        }
    }
}

/// What happens to the stored password once the token is stored.
pub fn password_step(form_password: Option<String>) -> (step: PasswordStep)
    ensures
        step@ == (match form_password {
            None => PasswordModel::Keep,
            Some(password) => if password@.len() == 0 {
                PasswordModel::Delete(JELLYFIN_PASSWORD)
            } else {
                PasswordModel::Store(JELLYFIN_PASSWORD, password@)
            },
        }),
{
    match form_password {
        None => PasswordStep::Keep,
        Some(password) => if password.as_str().is_empty() {
            PasswordStep::Delete(JELLYFIN_PASSWORD)
        } else {
            PasswordStep::Store(JELLYFIN_PASSWORD, password)
        },
    }
}

/// What is shown when the token could not be stored.
pub fn token_failure(why: &str) -> (text: String)
    ensures
        text@
            == "failed to store token in system keyring (you will have to log in again next start): "@
            + why@,
{
    "failed to store token in system keyring (you will have to log in again next start): ".to_owned().concat(
        why,
    )
}

/// What is shown when the password could not be stored.
pub fn password_failure(why: &str) -> (text: String)
    ensures
        text@ == "failed to store password in system keyring: "@ + why@,
{
    "failed to store password in system keyring: ".to_owned().concat(why)
}

} // verus!
