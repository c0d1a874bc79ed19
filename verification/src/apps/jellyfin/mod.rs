//! The Jellyfin app: a state machine over the login form, a connect attempt and
//! the browse screen, with a player beside them. Auth results and the reports
//! of the player carry generations, so a cancelled attempt or a replaced player
//! can never come back.

use std::sync::Arc;
use vstd::prelude::*;
use vstd::string::*;

use crate::app::{following_gen, modified_char, next_gen, KeyCode, KeyEvent, ShellRequest};
use crate::apps::jellyfin::browse::{paged, Browse, BrowseAction, ItemsResponse};
use crate::apps::jellyfin::login::{LoginAction, LoginForm, LoginModel};
use crate::apps::jellyfin::msg::{requests, Request};
use crate::apps::jellyfin::playback::{
    opt_now, Credentials, CredentialsModel, NowModel, NowPlaying, PlayerEvent, PlayerModel, Session,
    TrackKind,
};
use crate::apps::jellyfin::state::{listed, rejected, BrowseModel, StatusModel};
use crate::config::{
    Config, ConfigModel, JellyfinConfig, JellyfinModel, LanguageOverride, LanguageOverrides,
    LanguagePrefs, PrefsModel, TrackModel, TrackPreference,
};
use crate::jellyfin::{item_title, override_key, remembered_as, title_text, Error, MediaItem};
use crate::net::{is_plain_http, plain, PLAIN_HTTP_NOTICE};
use crate::text::{opt_text, texts};
use crate::ui::line::{shown, Span};

pub mod actions;
pub mod browse;
pub mod drawing;
pub mod laws;
pub mod libraries;
pub mod library;
pub mod login;
pub mod msg;
pub mod playback;
pub mod rows;
pub mod search;
pub mod series;
pub mod sessions;
pub mod state;
pub mod view;

verus! {

/// What is on screen.
pub enum Screen {
    /// Not activated yet.
    Boot,
    /// Auto-login with stored credentials in flight.
    Connecting,
    Login(LoginForm),
    Browse(Browse),
}

/// What is on screen, as values.
pub enum ScreenModel {
    Boot,
    Connecting,
    Login(LoginModel),
    Browse(BrowseModel),
}

impl View for Screen {
    type V = ScreenModel;

    open spec fn view(&self) -> ScreenModel {
        match self {
            Screen::Boot => ScreenModel::Boot,
            Screen::Connecting => ScreenModel::Connecting,
            Screen::Login(form) => ScreenModel::Login(form@),
            Screen::Browse(browse) => ScreenModel::Browse(browse@),
        }
    }
}

/// Something the app asks the program to do.
pub enum AppRequest {
    /// Log in, where asked for with the secrets that are stored.
    Connect { auth_gen: u64, credentials: Credentials, stored_secrets: bool },
    /// Write the settings file.
    SaveConfig,
    /// Store the token in the keyring and, for a form login, see to the
    /// password.
    StoreSession { token: String, password: Option<String> },
    /// Drop the stored token.
    DeleteToken,
    /// Write the remembered track switches.
    SaveOverrides,
    /// Start a player.
    Play {
        player_gen: u64,
        item: Arc<MediaItem>,
        skip_segments: Vec<String>,
        prefs: LanguagePrefs,
    },
    /// Stop a player; it reports its exit by itself.
    StopPlayer { player_gen: u64 },
}

/// A request as values.
pub enum AppCall {
    Connect { auth_gen: u64, credentials: CredentialsModel, stored_secrets: bool },
    SaveConfig,
    StoreSession { token: Seq<char>, password: Option<Seq<char>> },
    DeleteToken,
    SaveOverrides,
    Play {
        player_gen: u64,
        item: Arc<MediaItem>,
        skip_segments: Seq<Seq<char>>,
        prefs: PrefsModel,
    },
    StopPlayer { player_gen: u64 },
}

impl View for AppRequest {
    type V = AppCall;

    open spec fn view(&self) -> AppCall {
        match self {
            AppRequest::Connect { auth_gen, credentials, stored_secrets } => AppCall::Connect {
                auth_gen: *auth_gen,
                credentials: credentials@,
                stored_secrets: *stored_secrets,
            },
            AppRequest::SaveConfig => AppCall::SaveConfig,
            AppRequest::StoreSession { token, password } => AppCall::StoreSession {
                token: token@,
                password: opt_text(*password),
            },
            AppRequest::DeleteToken => AppCall::DeleteToken,
            AppRequest::SaveOverrides => AppCall::SaveOverrides,
            AppRequest::Play { player_gen, item, skip_segments, prefs } => AppCall::Play {
                player_gen: *player_gen,
                item: *item,
                skip_segments: texts(skip_segments@),
                prefs: prefs@,
            },
            AppRequest::StopPlayer { player_gen } => AppCall::StopPlayer {
                player_gen: *player_gen,
            },
        }
    }
}

/// Requests as values, in order.
pub open spec fn app_calls(list: Seq<AppRequest>) -> Seq<AppCall> {
    list.map_values(|r: AppRequest| r@)
}

/// An answer to something that was asked of the server, the player or the
/// keyring.
#[allow(inconsistent_fields)]
pub enum Msg {
    /// Result of an auth attempt. The generation guards against a stale result
    /// arriving after the user cancelled back to the login form.
    AuthDone { auth_gen: u64, result: Result<Session, Error> },
    ItemsLoaded { fetch_gen: u64, result: Result<Vec<Arc<MediaItem>>, Error> },
    LibraryItemsLoaded {
        fetch_gen: u64,
        start_index: usize,
        limit: usize,
        result: Result<ItemsResponse, Error>,
    },
    WatchedToggled { fetch_gen: u64, result: Result<(), Error> },
    /// Playback lifecycle; the generation distinguishes the current player from
    /// a replaced one that is still shutting down.
    Player { player_gen: u64, event: PlayerEvent },
    /// A background keyring write/delete failed; surfaced on the error line.
    KeyringError(String),
}

/// The Jellyfin app.
pub struct JellyfinApp {
    pub screen: Screen,
    /// Bumped whenever an auth attempt starts or is cancelled, so stale results
    /// are ignored.
    pub auth_gen: u64,
    pub player: Option<NowPlaying>,
    /// Bumped per playback; reports of a replaced player are dropped.
    pub player_gen: u64,
    /// Item waiting behind the "replace current playback?" prompt.
    pub pending_play: Option<Arc<MediaItem>>,
    /// The last generation of the browse screen before the current one, so that
    /// generations go on across re-logins.
    pub browse_gen: u64,
    /// The settings tab counts its re-authentications; this is the last count
    /// seen. A live session reconnects with the freshly stored token when
    /// another is seen.
    pub seen_reauth: u64,
    /// Remembered per-movie/per-show track switches.
    pub overrides: LanguageOverrides,
    /// What the program is asked to do, in order.
    pub outbox: Vec<AppRequest>,
}

/// The Jellyfin app as values.
pub struct AppModel {
    pub screen: ScreenModel,
    pub auth_gen: u64,
    pub player: Option<NowModel>,
    pub player_gen: u64,
    pub pending_play: Option<Arc<MediaItem>>,
    pub browse_gen: u64,
    pub seen_reauth: u64,
    pub overrides: Map<Seq<char>, PrefsModel>,
    pub outbox: Seq<AppCall>,
}

impl View for JellyfinApp {
    type V = AppModel;

    open spec fn view(&self) -> AppModel {
        AppModel {
            screen: self.screen@,
            auth_gen: self.auth_gen,
            player: opt_now(self.player),
            player_gen: self.player_gen,
            pending_play: self.pending_play,
            browse_gen: self.browse_gen,
            seen_reauth: self.seen_reauth,
            overrides: self.overrides@,
            outbox: app_calls(self.outbox@),
        }
    }
}

/// The credentials that the settings hold; no secrets among them.
pub open spec fn stored_credentials(config: JellyfinModel) -> CredentialsModel {
    CredentialsModel {
        host: config.host,
        username: config.username,
        password: Seq::empty(),
        device: config.device,
        device_id: config.device_id,
        token: Seq::empty(),
        user_id: config.user_id,
    }
}

/// Whether the settings are enough to log in with.
pub open spec fn configured(config: JellyfinModel) -> bool {
    config.host.len() > 0 && config.username.len() > 0
}

/// The form that a login starts from.
pub open spec fn login_model(config: JellyfinModel) -> LoginModel {
    LoginModel::opened(config.host, config.username)
}

/// What is remembered under a key.
pub open spec fn remembered(overrides: Map<Seq<char>, PrefsModel>, key: Seq<char>) -> PrefsModel {
    if overrides.dom().contains(key) {
        overrides[key]
    } else {
        PrefsModel::unset()
    }
}

/// A track choice put in place of another.
pub open spec fn switched(prefs: PrefsModel, kind: TrackKind, selection: TrackModel) -> PrefsModel {
    match kind {
        TrackKind::Audio => PrefsModel { audio: Some(selection), ..prefs },
        TrackKind::Subtitle => PrefsModel { subtitles: Some(selection), ..prefs },
    }
}

impl AppModel {
    /// What always holds of the app: the screens are well-formed, and something
    /// waits to replace the playback only while something plays.
    pub open spec fn wf(self) -> bool {
        &&& (self.screen matches ScreenModel::Login(form) ==> form.form.wf())
        &&& (self.screen matches ScreenModel::Browse(browse) ==> browse.wf())
        &&& (self.pending_play is Some ==> self.player is Some)
    }

    pub open spec fn initial(overrides: Map<Seq<char>, PrefsModel>, reauth: u64) -> AppModel {
        AppModel {
            screen: ScreenModel::Boot,
            auth_gen: 0,
            player: None,
            player_gen: 0,
            pending_play: None,
            browse_gen: 0,
            seen_reauth: reauth,
            overrides,
            outbox: Seq::empty(),
        }
    }

    pub open spec fn sent(self, call: AppCall) -> AppModel {
        AppModel { outbox: self.outbox.push(call), ..self }
    }

    /// Another screen; the generations of a browse screen that is left are kept
    /// for the next one.
    pub open spec fn showing(self, screen: ScreenModel) -> AppModel {
        AppModel {
            screen,
            browse_gen: match self.screen {
                ScreenModel::Browse(browse) => browse.gens.counter,
                _ => self.browse_gen,
            },
            ..self
        }
    }

    /// The same screen in another state.
    pub open spec fn with_screen(self, screen: ScreenModel) -> AppModel {
        AppModel { screen, ..self }
    }

    /// A login attempt under a generation of its own.
    pub open spec fn connecting(
        self,
        credentials: CredentialsModel,
        stored_secrets: bool,
    ) -> AppModel {
        let gen = next_gen(self.auth_gen);
        AppModel { auth_gen: gen, ..self }.sent(
            AppCall::Connect { auth_gen: gen, credentials, stored_secrets },
        )
    }

    /// A login with what is stored.
    pub open spec fn auto_login(self, config: JellyfinModel) -> AppModel {
        self.showing(ScreenModel::Connecting).connecting(stored_credentials(config), true)
    }

    // Playback.

    /// A player started for an item, with the track choices that are remembered
    /// for it or set for all. Only the browse screen plays.
    pub open spec fn playing(self, item: Arc<MediaItem>, config: JellyfinModel) -> AppModel {
        if self.screen is Browse {
            let gen = next_gen(self.player_gen);
            AppModel {
                player_gen: gen,
                player: Some(NowModel::starting(title_text(*item))),
                ..self
            }.sent(
                AppCall::Play {
                    player_gen: gen,
                    item,
                    skip_segments: config.skip_segments,
                    prefs: remembered(self.overrides, remembered_as(*item)).or(
                        PrefsModel {
                            audio: config.audio_language,
                            subtitles: config.subtitle_language,
                        },
                    ),
                },
            )
        } else {
            self
        }
    }

    /// The player, if there is one, told to stop.
    pub open spec fn stopping(self) -> AppModel {
        if self.player is Some {
            self.sent(AppCall::StopPlayer { player_gen: self.player_gen })
        } else {
            self
        }
    }

    /// The player told to stop and let go of, with whatever waited to replace
    /// it.
    pub open spec fn without_player(self) -> AppModel {
        AppModel { player: None, pending_play: None, ..self.stopping() }
    }

    /// The playback stopped by the user. The player stays until it reports its
    /// exit; a question whether to replace it goes at once.
    pub open spec fn stopped(self) -> AppModel {
        AppModel { pending_play: None, ..self.stopping() }
    }

    // Sessions.

    /// The session is over: the stored token goes, playback stops, and the
    /// login form says why.
    pub open spec fn expired(self, config: JellyfinModel) -> AppModel {
        let s = self.without_player().sent(AppCall::SaveConfig).sent(AppCall::DeleteToken);
        AppModel { auth_gen: next_gen(s.auth_gen), ..s }.showing(
            ScreenModel::Login(
                LoginModel {
                    error: Some("session expired, please log in again"@),
                    ..login_model(config)
                },
            ),
        )
    }

    /// The settings without the session.
    pub open spec fn without_session(config: ConfigModel) -> ConfigModel {
        ConfigModel {
            jellyfin: JellyfinModel { user_id: Seq::empty(), ..config.jellyfin },
            ..config
        }
    }

    /// The form that was submitted, if that is what is on screen.
    pub open spec fn submitted(self) -> Option<LoginModel> {
        match self.screen {
            ScreenModel::Login(form) => Some(form),
            _ => None,
        }
    }

    /// The settings after a login: the session's user, and what the form was
    /// filled with.
    pub open spec fn logged_in(self, session: Session, config: ConfigModel) -> ConfigModel {
        ConfigModel {
            jellyfin: JellyfinModel {
                host: match self.submitted() {
                    Some(form) => form.host(),
                    None => config.jellyfin.host,
                },
                username: match self.submitted() {
                    Some(form) => form.username(),
                    None => config.jellyfin.username,
                },
                user_id: session.user_id@,
                ..config.jellyfin
            },
            ..config
        }
    }

    /// The browse screen that a login opens, with a warning where traffic is
    /// not encrypted.
    pub open spec fn opened_browse(self, host: Seq<char>) -> BrowseModel {
        let browse = BrowseModel::initial(self.browse_gen).fetch();
        if plain(host) {
            BrowseModel {
                status: StatusModel { notice: Some(PLAIN_HTTP_NOTICE), ..browse.status },
                ..browse
            }
        } else {
            browse
        }
    }

    /// A current login attempt came back.
    pub open spec fn authenticated(self, result: Result<Session, Error>, config: ConfigModel) -> (
        AppModel,
        ConfigModel,
    ) {
        match result {
            Ok(session) => {
                let s = self.sent(AppCall::SaveConfig).sent(
                    AppCall::StoreSession {
                        token: session.token@,
                        password: match self.submitted() {
                            Some(form) => Some(form.password()),
                            None => None,
                        },
                    },
                ).showing(ScreenModel::Boot);
                (
                    s.with_screen(ScreenModel::Browse(s.opened_browse(session.host@))),
                    self.logged_in(session, config),
                )
            },
            Err(err) => {
                let form = match self.submitted() {
                    Some(form) => form,
                    None => login_model(config.jellyfin),
                };
                (
                    self.showing(
                        ScreenModel::Login(
                            LoginModel { busy: false, error: Some(err.text()), ..form },
                        ),
                    ),
                    config,
                )
            },
        }
    }

    /// The app brought to the front, with the settings tab's count of
    /// re-authentications.
    pub open spec fn activated(self, reauth: u64, config: JellyfinModel) -> AppModel {
        let s = AppModel { seen_reauth: reauth, ..self };
        match self.screen {
            ScreenModel::Boot => if configured(config) {
                s.auto_login(config)
            } else {
                s.showing(ScreenModel::Login(login_model(config)))
            },
            ScreenModel::Browse(_) => if reauth != self.seen_reauth {
                s.auto_login(config)
            } else {
                s
            },
            _ => s,
        }
    }

    /// The backend was taken out of the settings: everything in flight is
    /// stale.
    pub open spec fn removed(self, reauth: u64) -> AppModel {
        let s = self.without_player();
        AppModel {
            auth_gen: next_gen(s.auth_gen),
            player_gen: next_gen(s.player_gen),
            seen_reauth: reauth,
            ..s
        }.showing(ScreenModel::Boot)
    }

    // Keys.

    /// The answer to the question whether to replace the playback. Enter opened
    /// it, so only `y` and `n` act.
    pub open spec fn replace_key(self, key: KeyEvent, config: JellyfinModel) -> AppModel {
        if key.is_modified_char() {
            self
        } else {
            match key.code {
                KeyCode::Char('y') | KeyCode::Char('Y') => {
                    let s = self.without_player();
                    s.playing(self.pending_play->0, config)
                },
                KeyCode::Char('n') | KeyCode::Char('N') => AppModel { pending_play: None, ..self },
                _ => self,
            }
        }
    }

    /// The app after a key.
    pub open spec fn after_key(self, key: KeyEvent, config: JellyfinModel) -> AppModel {
        if self.pending_play is Some {
            self.replace_key(key, config)
        } else {
            match self.screen {
                ScreenModel::Boot => self,
                ScreenModel::Connecting => if key.code == KeyCode::Esc {
                    AppModel { auth_gen: next_gen(self.auth_gen), ..self }.showing(
                        ScreenModel::Login(login_model(config)),
                    )
                } else {
                    self
                },
                ScreenModel::Login(form) => {
                    let after = form.after_key(key);
                    match form.action(key) {
                        Some(LoginAction::Submit) => self.with_screen(
                            ScreenModel::Login(LoginModel { busy: true, error: None, ..after }),
                        ).connecting(
                            CredentialsModel {
                                host: after.host(),
                                username: after.username(),
                                password: after.password(),
                                user_id: Seq::empty(),
                                ..stored_credentials(config)
                            },
                            false,
                        ),
                        Some(LoginAction::Cancel) => AppModel {
                            auth_gen: next_gen(self.auth_gen),
                            ..self
                        }.with_screen(ScreenModel::Login(LoginModel { busy: false, ..after })),
                        None => self.with_screen(ScreenModel::Login(after)),
                    }
                },
                ScreenModel::Browse(browse) => {
                    let s = self.with_screen(ScreenModel::Browse(browse.after_key(key)));
                    match browse.key_action(key) {
                        Some(BrowseAction::Play(item)) => if self.player is Some {
                            AppModel { pending_play: Some(item), ..s }
                        } else {
                            s.playing(item, config)
                        },
                        _ => s,
                    }
                },
            }
        }
    }

    /// Whether a key asks to quit.
    pub open spec fn quits(self, key: KeyEvent) -> bool {
        self.pending_play is None && match self.screen {
            ScreenModel::Connecting => key.code == KeyCode::Char('q'),
            ScreenModel::Browse(browse) => browse.key_action(key) == Some(BrowseAction::Quit),
            _ => false,
        }
    }

    // Answers.

    /// An answer for the browse screen: what it turns the screen into, and
    /// whether it says that the session is over.
    pub open spec fn answered(browse: BrowseModel, msg: Msg) -> (BrowseModel, bool) {
        match msg {
            Msg::ItemsLoaded { fetch_gen, result } => (
                browse.after_items(fetch_gen, listed(result)),
                fetch_gen == browse.gens.fetch && rejected(result),
            ),
            Msg::LibraryItemsLoaded { fetch_gen, start_index, limit, result } => (
                browse.after_page(fetch_gen, start_index, limit, paged(result)),
                fetch_gen == browse.gens.fetch && rejected(result),
            ),
            Msg::WatchedToggled { fetch_gen, result } => (
                browse.after_toggle(fetch_gen, result),
                rejected(result),
            ),
            Msg::KeyringError(message) => (
                BrowseModel {
                    status: StatusModel { error: Some(message@), ..browse.status },
                    ..browse
                },
                false,
            ),
            _ => (browse, false),
        }
    }

    /// A report of the current player.
    pub open spec fn reported(self, event: PlayerModel, config: ConfigModel) -> (
        AppModel,
        ConfigModel,
    ) {
        let told = AppModel {
            player: match self.player {
                Some(now) => Some(now.after(event)),
                None => None,
            },
            ..self
        };
        match event {
            PlayerModel::TrackSwitched { override_key, kind, selection } => (
                AppModel {
                    overrides: self.overrides.insert(
                        override_key,
                        switched(remembered(self.overrides, override_key), kind, selection),
                    ),
                    ..self
                }.sent(AppCall::SaveOverrides),
                config,
            ),
            PlayerModel::Failed(message) => (
                match self.screen {
                    ScreenModel::Browse(browse) => self.with_screen(
                        ScreenModel::Browse(
                            BrowseModel {
                                status: StatusModel { error: Some(message), ..browse.status },
                                ..browse
                            },
                        ),
                    ),
                    _ => self,
                },
                config,
            ),
            PlayerModel::SessionExpired => (
                self.expired(config.jellyfin),
                AppModel::without_session(config),
            ),
            PlayerModel::Exited => {
                let s = AppModel { player: None, pending_play: None, ..self };
                (
                    match self.screen {
                        ScreenModel::Browse(browse) => s.with_screen(
                            ScreenModel::Browse(browse.after_playback()),
                        ),
                        _ => s,
                    },
                    config,
                )
            },
            _ => (told, config),
        }
    }

    /// The app and the settings after an answer. Results that arrive while no
    /// browse screen is there are stale.
    pub open spec fn after_event(self, msg: Msg, config: ConfigModel) -> (AppModel, ConfigModel) {
        match msg {
            Msg::AuthDone { auth_gen, result } => if auth_gen != self.auth_gen {
                (self, config)
            } else {
                self.authenticated(result, config)
            },
            Msg::Player { player_gen, event } => if player_gen != self.player_gen {
                (self, config)
            } else {
                self.reported(event@, config)
            },
            _ => match self.screen {
                ScreenModel::Browse(browse) => {
                    let (after, session_over) = AppModel::answered(browse, msg);
                    let s = self.with_screen(ScreenModel::Browse(after));
                    if session_over {
                        (s.expired(config.jellyfin), AppModel::without_session(config))
                    } else {
                        (s, config)
                    }
                },
                _ => (self, config),
            },
        }
    }

    /// Whether a plain character is text on the current screen.
    pub open spec fn takes_text(self) -> bool {
        match self.screen {
            ScreenModel::Login(form) => !form.form.on_buttons(),
            ScreenModel::Browse(browse) => browse.inputs.search_focused
                || browse.inputs.filter_focused,
            _ => false,
        }
    }

    pub open spec fn after_tick(self) -> AppModel {
        match self.screen {
            ScreenModel::Browse(browse) => self.with_screen(
                ScreenModel::Browse(browse.after_tick()),
            ),
            _ => self,
        }
    }
}

/// A login attempt that was superseded or cancelled can never come back, and
/// neither can a player that was replaced.
pub proof fn law_stale_results_are_dropped(
    app: AppModel,
    gen: u64,
    result: Result<Session, Error>,
    event: PlayerEvent,
    config: ConfigModel,
)
    ensures
        gen != app.auth_gen ==> app.after_event(Msg::AuthDone { auth_gen: gen, result }, config)
            == (app, config),
        gen != app.player_gen ==> app.after_event(Msg::Player { player_gen: gen, event }, config)
            == (app, config),
{
}

/// Cancelling a login, automatic or typed, makes its answer stale.
pub proof fn law_cancelled_logins_are_dropped(
    app: AppModel,
    key: KeyEvent,
    result: Result<Session, Error>,
    config: ConfigModel,
)
    requires
        app.pending_play is None,
        app.screen is Connecting || (app.screen matches ScreenModel::Login(form) && form.busy),
        key.code == KeyCode::Esc,
    ensures
        ({
            let after = app.after_key(key, config.jellyfin);
            after.after_event(Msg::AuthDone { auth_gen: app.auth_gen, result }, config) == (
                after,
                config,
            )
        }),
{
}

/// A replaced player is told to stop, and its reports are stale from then on.
pub proof fn law_replaced_players_are_stopped(
    app: AppModel,
    key: KeyEvent,
    event: PlayerEvent,
    config: ConfigModel,
)
    requires
        app.wf(),
        app.screen is Browse,
        app.pending_play is Some,
        key.code == KeyCode::Char('y'),
        !key.is_modified_char(),
    ensures
        ({
            let after = app.after_key(key, config.jellyfin);
            &&& after.outbox.len() == app.outbox.len() + 2
            &&& after.outbox[app.outbox.len() as int] == AppCall::StopPlayer {
                player_gen: app.player_gen,
            }
            &&& after.outbox.last() matches AppCall::Play { item, .. } && item
                == app.pending_play->0
            &&& after.pending_play is None
            &&& after.player is Some
            &&& after.after_event(Msg::Player { player_gen: app.player_gen, event }, config) == (
                after,
                config,
            )
        }),
{
}

/// A second playback never starts beside the first: it waits for an answer.
pub proof fn law_one_player_at_a_time(app: AppModel, key: KeyEvent, config: JellyfinModel)
    requires
        app.player is Some,
        app.pending_play is None,
    ensures
        app.after_key(key, config).player == app.player,
        app.after_key(key, config).player_gen == app.player_gen,
{
}

/// Something waits to replace the playback only while something plays: whatever
/// ends the playback drops what waits.
pub proof fn law_nothing_waits_without_a_player(app: AppModel, config: ConfigModel)
    ensures
        app.reported(PlayerModel::Exited, config).0.pending_play is None,
        app.expired(config.jellyfin).pending_play is None,
        app.expired(config.jellyfin).player is None,
{
}

/// A track switch is remembered, and the next playback of that movie or show
/// starts with it.
pub proof fn law_switched_tracks_are_remembered(
    app: AppModel,
    item: Arc<MediaItem>,
    kind: TrackKind,
    selection: TrackModel,
    config: ConfigModel,
)
    requires
        app.screen is Browse,
    ensures
        ({
            let event = PlayerModel::TrackSwitched {
                override_key: remembered_as(*item),
                kind,
                selection,
            };
            let after = app.reported(event, config).0;
            after.playing(item, config.jellyfin).outbox.last() matches AppCall::Play { prefs, .. }
                && match kind {
                TrackKind::Audio => prefs.audio == Some(selection),
                TrackKind::Subtitle => prefs.subtitles == Some(selection),
            }
        }),
{
}

/// A session that ended leaves no user in the settings and no token in the
/// keyring, and what was in flight is stale.
pub proof fn law_ended_sessions_leave_nothing(app: AppModel, config: ConfigModel)
    ensures
        AppModel::without_session(config).jellyfin.user_id.len() == 0,
        app.expired(config.jellyfin).outbox.contains(AppCall::DeleteToken),
        app.expired(config.jellyfin).auth_gen == next_gen(app.auth_gen),
        app.expired(config.jellyfin).screen is Login,
{
    let after = app.expired(config.jellyfin);
    assert(after.outbox[after.outbox.len() - 1] == AppCall::DeleteToken);
}

/// A re-authentication in the settings is noticed once, and only a live browse
/// screen reconnects for it.
pub proof fn law_reauth_is_consumed_once(app: AppModel, reauth: u64, config: JellyfinModel)
    ensures
        app.activated(reauth, config).seen_reauth == reauth,
        !(app.screen is Boot) && !(app.screen is Browse) ==> app.activated(reauth, config).screen
            == app.screen,
        app.screen is Browse && reauth != app.seen_reauth ==> app.activated(
            reauth,
            config,
        ).screen is Connecting,
        !(app.screen is Boot) && reauth == app.seen_reauth ==> app.activated(reauth, config)
            == app,
{
}

/// Taking the backend out of the settings makes everything in flight stale.
pub proof fn law_removed_backends_are_silent(
    app: AppModel,
    reauth: u64,
    result: Result<Session, Error>,
    event: PlayerEvent,
    config: ConfigModel,
)
    ensures
        ({
            let after = app.removed(reauth);
            &&& after.screen is Boot
            &&& after.player is None
            &&& after.after_event(Msg::AuthDone { auth_gen: app.auth_gen, result }, config) == (
                after,
                config,
            )
            &&& after.after_event(Msg::Player { player_gen: app.player_gen, event }, config) == (
                after,
                config,
            )
        }),
{
}

/// A new browse screen goes on counting generations where the one before it
/// ended.
pub proof fn law_generations_go_on_across_logins(
    app: AppModel,
    browse: BrowseModel,
    config: JellyfinModel,
    session: Session,
    after: ConfigModel,
)
    requires
        app.screen == ScreenModel::Browse(browse),
        browse.gens_in_order(),
        browse.gens.counter < u64::MAX,
    ensures
        app.expired(config).authenticated(
            Ok(session),
            after,
        ).0.screen matches ScreenModel::Browse(next) && next.gens.fetch > browse.gens.counter,
{
}


/// A copy of a list of texts.
fn copy_texts(list: &Vec<String>) -> (copy: Vec<String>)
    ensures
        texts(copy@) == texts(list@),
{
    let mut copy: Vec<String> = Vec::new();
    let mut i: usize = 0;
    while i < list.len()
        invariant
            i <= list@.len(),
            copy@ == list@.take(i as int),
        decreases list@.len() - i,
    {
        copy.push(list[i].clone());
        assert(list@.take(i + 1) =~= list@.take(i as int).push(list@[i as int]));
        i += 1;
    }
    assert(list@.take(i as int) =~= list@);
    copy
}

impl JellyfinApp {
    /// What always holds of the app, and of the track switches it remembers.
    pub open spec fn wf(self) -> bool {
        self@.wf() && self.overrides.wf()
    }

    pub fn new(overrides: LanguageOverrides, reauth: u64) -> (app: JellyfinApp)
        requires
            overrides.wf(),
        ensures
            app@ == AppModel::initial(overrides@, reauth),
            app.wf(),
    {
        let app = JellyfinApp {
            screen: Screen::Boot,
            auth_gen: 0,
            player: None,
            player_gen: 0,
            pending_play: None,
            browse_gen: 0,
            seen_reauth: reauth,
            overrides,
            outbox: Vec::new(),
        };
        assert(app@.outbox =~= Seq::empty());
        app
    }

    pub fn id(&self) -> (id: &'static str)
        ensures
            id == "jellyfin",
    {
        "jellyfin"
    }

    pub fn title(&self) -> (title: &'static str)
        ensures
            title == "Jellyfin",
    {
        "Jellyfin"
    }

    pub fn is_configured(&self, config: &Config) -> (answer: bool)
        ensures
            answer == configured(config@.jellyfin),
    {
        !config.jellyfin.host.as_str().is_empty() && !config.jellyfin.username.as_str().is_empty()
    }

    /// Hand the collected requests over.
    pub fn take_requests(&mut self) -> (list: Vec<AppRequest>)
        ensures
            app_calls(list@) == old(self)@.outbox,
            final(self)@ == (AppModel { outbox: Seq::empty(), ..old(self)@ }),
            old(self).wf() ==> final(self).wf(),
    {
        let mut list: Vec<AppRequest> = Vec::new();
        std::mem::swap(&mut list, &mut self.outbox);
        assert(app_calls(self.outbox@) =~= Seq::empty());
        list
    }

    /// Hand over what the browse screen asks for.
    pub fn take_browse_requests(&mut self) -> (list: Vec<Request>)
        ensures
            match old(self)@.screen {
                ScreenModel::Browse(browse) => requests(list@) == browse.outbox && final(self)@
                    == old(self)@.with_screen(
                    ScreenModel::Browse(BrowseModel { outbox: Seq::empty(), ..browse }),
                ),
                _ => list@.len() == 0 && final(self)@ == old(self)@,
            },
            old(self).wf() ==> final(self).wf(),
    {
        let mut screen: Screen = Screen::Boot;
        std::mem::swap(&mut screen, &mut self.screen);
        match screen {
            Screen::Browse(browse) => {
                let mut browse: Browse = browse;
                let list: Vec<Request> = browse.take_requests();
                self.screen = Screen::Browse(browse);
                list
            },
            other => {
                self.screen = other;
                Vec::new()
            },
        }
    }

    fn send(&mut self, request: AppRequest)
        ensures
            final(self)@ == old(self)@.sent(request@),
            final(self).overrides == old(self).overrides,
    {
        let ghost before = self.outbox@;
        self.outbox.push(request);
        assert(app_calls(self.outbox@) =~= app_calls(before).push(request@));
    }

    /// Credentials from the settings only; secrets stay empty here and are
    /// read from the keyring when connecting.
    fn credentials(config: &Config) -> (credentials: Credentials)
        ensures
            credentials@ == stored_credentials(config@.jellyfin),
    {
        let jellyfin: &JellyfinConfig = &config.jellyfin;
        Credentials {
            host: jellyfin.host.clone(),
            username: jellyfin.username.clone(),
            password: String::new(),
            device: jellyfin.device.clone(),
            device_id: jellyfin.device_id.clone(),
            token: String::new(),
            user_id: jellyfin.user_id.clone(),
        }
    }

    fn spawn_connect(&mut self, credentials: Credentials, stored_secrets: bool)
        ensures
            final(self)@ == old(self)@.connecting(credentials@, stored_secrets),
            final(self).overrides == old(self).overrides,
    {
        self.auth_gen = following_gen(self.auth_gen);
        let auth_gen: u64 = self.auth_gen;
        self.send(AppRequest::Connect { auth_gen, credentials, stored_secrets });
    }

    /// Show another screen; generations of a browse screen go on in the next
    /// one.
    fn show(&mut self, screen: Screen)
        ensures
            final(self)@ == old(self)@.showing(screen@),
            final(self).overrides == old(self).overrides,
    {
        if let Screen::Browse(browse) = &self.screen {
            self.browse_gen = browse.gens.counter;
        }
        self.screen = screen;
    }

    fn tell_player_to_stop(&mut self)
        ensures
            final(self)@ == old(self)@.stopping(),
            final(self).overrides == old(self).overrides,
    {
        if self.player.is_some() {
            let player_gen: u64 = self.player_gen;
            self.send(AppRequest::StopPlayer { player_gen });
        }
    }

    /// Stop the player and let go of it; its bar goes, and so does whatever
    /// waited to replace it.
    fn drop_player(&mut self)
        ensures
            final(self)@ == old(self)@.without_player(),
            final(self).overrides == old(self).overrides,
    {
        self.tell_player_to_stop();
        self.player = None;
        self.pending_play = None;
    }

    fn start_playback(&mut self, item: Arc<MediaItem>, config: &Config)
        ensures
            final(self)@ == old(self)@.playing(item, config@.jellyfin),
            final(self).overrides == old(self).overrides,
    {
        if !matches!(self.screen, Screen::Browse(_)) {
            return;
        }
        let prefs: LanguagePrefs = self.overrides.language_prefs(
            override_key(&item).as_str(),
            &config.jellyfin,
        );
        self.player_gen = following_gen(self.player_gen);
        let player_gen: u64 = self.player_gen;
        self.player = Some(NowPlaying::starting(item_title(&item)));
        let skip_segments: Vec<String> = copy_texts(&config.jellyfin.skip_segments);
        self.send(AppRequest::Play { player_gen, item, skip_segments, prefs });
    }

    /// Forget everything of a backend that was taken out of the settings.
    pub fn on_removed(&mut self, reauth: u64)
        requires
            old(self).wf(),
        ensures
            final(self)@ == old(self)@.removed(reauth),
            final(self).wf(),
    {
        self.drop_player();
        // Everything in flight is stale: the auth attempt, the stopped player's
        // trailing reports, and (with the browse screen) its fetches.
        self.auth_gen = following_gen(self.auth_gen);
        self.player_gen = following_gen(self.player_gen);
        // A pending signal referred to the removed identity.
        self.seen_reauth = reauth;
        self.show(Screen::Boot);
    }

    pub fn activate(&mut self, reauth: u64, config: &Config)
        requires
            old(self).wf(),
        ensures
            final(self)@ == old(self)@.activated(reauth, config@.jellyfin),
            final(self).wf(),
    {
        let signalled: bool = reauth != self.seen_reauth;
        self.seen_reauth = reauth;
        let reconnect: bool = match &self.screen {
            Screen::Boot => {
                if !self.is_configured(config) {
                    self.show(Screen::Login(LoginForm::from_config(&config.jellyfin)));
                    return;
                }
                true
            },
            // The settings tab re-authenticated while this one was away, so the
            // session's token is stale; only a live screen is rescued.
            Screen::Browse(_) => signalled,
            _ => false,
        };
        if reconnect {
            self.show(Screen::Connecting);
            self.spawn_connect(JellyfinApp::credentials(config), true);
        }
    }

    /// The answer to whether to replace the playback. Enter opened the
    /// question, so honouring it here would let a double-tap replace by
    /// accident.
    fn on_replace_key(&mut self, key: KeyEvent, item: Arc<MediaItem>, config: &Config)
        requires
            old(self).wf(),
            old(self)@.pending_play == Some(item),
        ensures
            final(self)@ == old(self)@.replace_key(key, config@.jellyfin),
            final(self).wf(),
    {
        if modified_char(&key) {
            return;
        }
        match key.code {
            KeyCode::Char('y') | KeyCode::Char('Y') => {
                self.drop_player();
                self.start_playback(item, config);
            },
            KeyCode::Char('n') | KeyCode::Char('N') => {
                self.pending_play = None;
            },
            _ => {},
        }
    }

    fn on_login_key(&mut self, key: KeyEvent, form: LoginForm, config: &Config)
        requires
            old(self).overrides.wf(),
            form@.form.wf(),
            old(self)@.screen is Boot,
            old(self)@.pending_play is None,
        ensures
            final(self)@ == (AppModel {
                screen: ScreenModel::Login(form@),
                ..old(self)@
            }).after_key(key, config@.jellyfin),
            final(self).wf(),
    {
        let mut form: LoginForm = form;
        match form.on_key(key) {
            Some(LoginAction::Submit) => {
                form.busy = true;
                form.error = None;
                let mut credentials: Credentials = JellyfinApp::credentials(config);
                credentials.host = form.host();
                credentials.username = form.username();
                credentials.password = form.password();
                // Fresh username/password auth: no stored user id.
                credentials.user_id = String::new();
                self.screen = Screen::Login(form);
                self.spawn_connect(credentials, false);
            },
            Some(LoginAction::Cancel) => {
                // Release the form; the answer in flight lands stale.
                form.busy = false;
                self.auth_gen = following_gen(self.auth_gen);
                self.screen = Screen::Login(form);
            },
            None => {
                self.screen = Screen::Login(form);
            },
        }
    }

    fn on_browse_key(&mut self, key: KeyEvent, browse: Browse, config: &Config) -> (quit: bool)
        requires
            old(self).overrides.wf(),
            browse@.wf(),
            old(self)@.screen is Boot,
            old(self)@.pending_play is None,
        ensures
            final(self)@ == (AppModel {
                screen: ScreenModel::Browse(browse@),
                ..old(self)@
            }).after_key(key, config@.jellyfin),
            quit == (browse@.key_action(key) == Some(BrowseAction::Quit)),
            final(self).wf(),
    {
        let mut browse: Browse = browse;
        let action: Option<BrowseAction> = browse.on_key(key);
        self.screen = Screen::Browse(browse);
        match action {
            Some(BrowseAction::Quit) => true,
            Some(BrowseAction::Play(item)) => {
                if self.player.is_some() {
                    self.pending_play = Some(item);
                } else {
                    self.start_playback(item, config);
                }
                false
            },
            None => false,
        }
    }

    pub fn on_key(&mut self, key: KeyEvent, config: &Config) -> (request: Option<ShellRequest>)
        requires
            old(self).wf(),
        ensures
            final(self)@ == old(self)@.after_key(key, config@.jellyfin),
            request == (if old(self)@.quits(key) {
                Some(ShellRequest::Quit)
            } else {
                None
            }),
            final(self).wf(),
    {
        if let Some(item) = &self.pending_play {
            let item: Arc<MediaItem> = item.clone();
            self.on_replace_key(key, item, config);
            return None;
        }
        let mut screen: Screen = Screen::Boot;
        std::mem::swap(&mut screen, &mut self.screen);
        match screen {
            Screen::Boot => None,
            Screen::Connecting => {
                match key.code {
                    KeyCode::Esc => {
                        // Cancel the pending attempt and drop to the form.
                        self.auth_gen = following_gen(self.auth_gen);
                        self.screen = Screen::Login(LoginForm::from_config(&config.jellyfin));
                        None
                    },
                    KeyCode::Char('q') => {
                        self.screen = Screen::Connecting;
                        Some(ShellRequest::Quit)
                    },
                    _ => {
                        self.screen = Screen::Connecting;
                        None
                    },
                }
            },
            Screen::Login(form) => {
                self.on_login_key(key, form, config);
                None
            },
            Screen::Browse(browse) => {
                if self.on_browse_key(key, browse, config) {
                    Some(ShellRequest::Quit)
                } else {
                    None
                }
            },
        }
    }

    pub fn on_tick(&mut self)
        requires
            old(self).wf(),
        ensures
            final(self)@ == old(self)@.after_tick(),
            final(self).wf(),
    {
        let mut screen: Screen = Screen::Boot;
        std::mem::swap(&mut screen, &mut self.screen);
        match screen {
            Screen::Browse(browse) => {
                let mut browse: Browse = browse;
                browse.on_tick();
                self.screen = Screen::Browse(browse);
            },
            other => {
                self.screen = other;
            },
        }
    }

    /// Drop the stored token and return to the login form; used when the server
    /// starts answering that the session is over (token revoked or expired).
    fn on_session_expired(&mut self, config: &mut Config)
        requires
            old(self).overrides.wf(),
        ensures
            final(self)@ == old(self)@.expired(old(config)@.jellyfin),
            final(config)@ == AppModel::without_session(old(config)@),
            final(self).wf(),
    {
        // A revoked token breaks the stream's own requests and every playback
        // report, and the login screen has no way to reach the stop key.
        self.drop_player();
        config.jellyfin.user_id = String::new();
        self.send(AppRequest::SaveConfig);
        self.send(AppRequest::DeleteToken);
        self.auth_gen = following_gen(self.auth_gen);
        let mut form: LoginForm = LoginForm::from_config(&config.jellyfin);
        form.error = Some("session expired, please log in again".to_owned());
        self.show(Screen::Login(form));
    }

    /// A login came back: what it was made with goes into the settings, the
    /// token (and, for form logins, the password) into the keyring, and the
    /// browse screen opens; or the form says what went wrong.
    fn on_auth_done(&mut self, result: Result<Session, Error>, config: &mut Config)
        requires
            old(self).wf(),
        ensures
            (final(self)@, final(config)@) == old(self)@.authenticated(result, old(config)@),
            final(self).wf(),
    {
        match result {
            Ok(session) => {
                let mut form_password: Option<String> = None;
                if let Screen::Login(form) = &self.screen {
                    config.jellyfin.host = form.host();
                    config.jellyfin.username = form.username();
                    form_password = Some(form.password());
                }
                let plain_http: bool = is_plain_http(session.host.as_str());
                config.jellyfin.user_id = session.user_id;
                self.send(AppRequest::SaveConfig);
                self.send(
                    AppRequest::StoreSession { token: session.token, password: form_password },
                );
                self.show(Screen::Boot);
                let mut browse: Browse = Browse::new(self.browse_gen);
                if plain_http {
                    // The login form warns about this too, but an automatic
                    // login never shows the form.
                    browse.status.notice = Some(PLAIN_HTTP_NOTICE);
                }
                self.screen = Screen::Browse(browse);
            },
            Err(err) => {
                let mut screen: Screen = Screen::Connecting;
                std::mem::swap(&mut screen, &mut self.screen);
                let mut form: LoginForm = match screen {
                    Screen::Login(form) => form,
                    other => {
                        self.screen = other;
                        LoginForm::from_config(&config.jellyfin)
                    },
                };
                form.busy = false;
                form.error = Some(err.message());
                self.show(Screen::Login(form));
            },
        }
    }

    /// Hand an answer to the browse screen. It checks staleness first and only
    /// reports the end of a session for a current answer; a stale one belongs
    /// to an old token and must not end a fresh session.
    fn answer(browse: Browse, msg: Msg) -> (answered: (Browse, bool))
        requires
            browse@.wf(),
        ensures
            (answered.0@, answered.1) == AppModel::answered(browse@, msg),
            answered.0@.wf(),
    {
        let mut browse: Browse = browse;
        let session_over: bool = match msg {
            Msg::ItemsLoaded { fetch_gen, result } => browse.on_items_loaded(fetch_gen, result),
            Msg::LibraryItemsLoaded { fetch_gen, start_index, limit, result } =>
                browse.on_library_items_loaded(fetch_gen, start_index, limit, result),
            Msg::WatchedToggled { fetch_gen, result } => browse.on_watched_toggled(
                fetch_gen,
                result,
            ),
            Msg::KeyringError(message) => {
                browse.status.error = Some(message);
                false
            },
            Msg::AuthDone { .. } | Msg::Player { .. } => false,
        };
        (browse, session_over)
    }

    /// A track switch is remembered for its movie or show.
    fn on_track_switched(&mut self, key: String, kind: TrackKind, selection: TrackPreference)
        requires
            old(self).wf(),
        ensures
            final(self)@ == (AppModel {
                overrides: old(self)@.overrides.insert(
                    key@,
                    switched(remembered(old(self)@.overrides, key@), kind, selection@),
                ),
                ..old(self)@
            }).sent(AppCall::SaveOverrides),
            final(self).wf(),
    {
        let slot: &mut LanguageOverride = self.overrides.entry(key);
        match kind {
            TrackKind::Audio => {
                slot.audio = Some(selection);
            },
            TrackKind::Subtitle => {
                slot.subtitles = Some(selection);
            },
        }
        self.send(AppRequest::SaveOverrides);
    }

    /// The player is gone, so a question whether to replace it no longer has
    /// anything to replace.
    fn on_player_exited(&mut self)
        requires
            old(self).wf(),
        ensures
            final(self)@ == old(self)@.reported(PlayerModel::Exited, arbitrary()).0,
            final(self).wf(),
    {
        self.player = None;
        self.pending_play = None;
        let mut screen: Screen = Screen::Boot;
        std::mem::swap(&mut screen, &mut self.screen);
        match screen {
            Screen::Browse(browse) => {
                let mut browse: Browse = browse;
                browse.on_playback_finished();
                self.screen = Screen::Browse(browse);
            },
            other => {
                self.screen = other;
            },
        }
    }

    fn on_player_event(&mut self, event: PlayerEvent, config: &mut Config)
        requires
            old(self).wf(),
        ensures
            (final(self)@, final(config)@) == old(self)@.reported(event@, old(config)@),
            final(self).wf(),
    {
        match event {
            PlayerEvent::Started { title } => {
                if self.player.is_some() {
                    self.player = Some(NowPlaying::starting(title));
                }
            },
            PlayerEvent::Position { secs } => {
                if let Some(now) = &mut self.player {
                    now.position = secs;
                }
            },
            PlayerEvent::Duration { secs } => {
                if let Some(now) = &mut self.player {
                    now.duration = Some(secs);
                }
            },
            PlayerEvent::TrackSwitched { override_key, kind, selection } => {
                self.on_track_switched(override_key, kind, selection);
            },
            PlayerEvent::Failed(message) => {
                if let Screen::Browse(browse) = &mut self.screen {
                    browse.status.error = Some(message);
                }
            },
            PlayerEvent::SessionExpired => {
                self.on_session_expired(config);
            },
            PlayerEvent::Exited => {
                self.on_player_exited();
            },
        }
    }

    /// Results that arrive while no browse screen is there are stale.
    pub fn on_event(&mut self, msg: Msg, config: &mut Config)
        requires
            old(self).wf(),
        ensures
            (final(self)@, final(config)@) == old(self)@.after_event(msg, old(config)@),
            final(self).wf(),
    {
        match msg {
            Msg::AuthDone { auth_gen, result } => {
                if auth_gen == self.auth_gen {
                    self.on_auth_done(result, config);
                }
            },
            Msg::Player { player_gen, event } => {
                // Otherwise a report of a player that was replaced.
                if player_gen == self.player_gen {
                    self.on_player_event(event, config);
                }
            },
            msg => {
                let mut screen: Screen = Screen::Boot;
                std::mem::swap(&mut screen, &mut self.screen);
                match screen {
                    Screen::Browse(browse) => {
                        let (browse, session_over) = JellyfinApp::answer(browse, msg);
                        self.screen = Screen::Browse(browse);
                        if session_over {
                            self.on_session_expired(config);
                        }
                    },
                    other => {
                        self.screen = other;
                    },
                }
            },
        }
    }

    /// Stop the player before the program ends; true if there is one to wait
    /// for.
    pub fn on_quit(&mut self) -> (waits: bool)
        requires
            old(self).wf(),
        ensures
            final(self)@ == old(self)@.stopping(),
            waits == (old(self)@.player is Some),
            final(self).wf(),
    {
        self.tell_player_to_stop();
        self.player.is_some()
    }

    /// The player is let go of when it reports its exit, after its last
    /// playback report is on the server.
    pub fn ready_to_quit(&self) -> (answer: bool)
        ensures
            answer == (self@.player is None),
    {
        self.player.is_none()
    }

    /// The now-playing bar for the shell's status line.
    pub fn status_line(&self) -> (line: Option<Vec<Span>>)
        ensures
            match self@.player {
                Some(now) => line is Some && shown(line->0@) == now.bar(),
                None => line is None,
            },
    {
        match &self.player {
            Some(now) => Some(now.bar()),
            None => None,
        }
    }

    /// Stop the playback; true if there was one. A question whether to replace
    /// it is dropped with it.
    pub fn stop_player(&mut self) -> (stopped: bool)
        requires
            old(self).wf(),
        ensures
            final(self)@ == old(self)@.stopped(),
            stopped == (old(self)@.player is Some),
            final(self).wf(),
    {
        if self.player.is_none() {
            return false;
        }
        self.tell_player_to_stop();
        self.pending_play = None;
        true
    }

    pub fn capturing_text(&self) -> (answer: bool)
        ensures
            answer == self@.takes_text(),
    {
        match &self.screen {
            Screen::Login(form) => form.action_row_focused(),
            Screen::Browse(browse) => browse.input_focused(),
            Screen::Boot | Screen::Connecting => false,
        }
    }

    /// The question that is open, if any.
    pub fn question(&self) -> (text: Option<&'static str>)
        ensures
            text == (if self@.pending_play is Some {
                Some("Replace current playback?")
            } else {
                None
            }),
    {
        if self.pending_play.is_some() {
            Some("Replace current playback?")
        } else {
            None
        }
    }
}

} // verus!
