//! The Radarr app: a state machine over setup (host + API key), a connect
//! attempt, and the browse screen. Auth results carry a generation so a
//! cancelled or superseded attempt can never resurrect itself.

use std::sync::Arc;
use vstd::prelude::*;
use vstd::string::*;

use crate::app::{following_gen, next_gen, KeyCode, KeyEvent, ShellRequest};
use crate::apps::auto_search::{is_status_line, rejects_key, shown_line};
use crate::apps::radarr::browse::{Browse, BrowseAction, Gens, LookupEntry};
use crate::apps::radarr::laws::{
    lemma_added_wf, lemma_command_wf, lemma_lookup_wf, lemma_movies_wf, lemma_quiet_answers_wf,
    lemma_sorted_wf,
};
use crate::apps::radarr::msg::{requests, CommandKind, Request};
use crate::apps::radarr::setup::{SetupForm, SetupModel};
use crate::apps::radarr::state::{listed, options, rejected, BrowseModel, StatusModel};
use crate::arr::models::{Command, HistoryRecord, QualityProfile, QueueItem, Release, RootFolder};
use crate::arr::Error;
use crate::config::{Config, ConfigModel};
use crate::net::{is_plain_http, plain, PLAIN_HTTP_NOTICE};
use crate::radarr::Movie;
use crate::text::opt_text;
use crate::ui::line::Span;

pub mod actions;
pub mod answers;
pub mod browse;
pub mod connections;
pub mod drawing;
pub mod laws;
pub mod msg;
pub mod navigation;
pub mod setup;
pub mod state;
pub mod view;

verus! {

/// What is on screen.
pub enum Screen {
    /// Not activated yet.
    Boot,
    /// Connecting with the stored API key.
    Connecting,
    Setup(SetupForm),
    Browse(Browse),
}

/// What is on screen, as values.
pub enum ScreenModel {
    Boot,
    Connecting,
    Setup(SetupModel),
    Browse(BrowseModel),
}

impl View for Screen {
    type V = ScreenModel;

    open spec fn view(&self) -> ScreenModel {
        match self {
            Screen::Boot => ScreenModel::Boot,
            Screen::Connecting => ScreenModel::Connecting,
            Screen::Setup(form) => ScreenModel::Setup(form@),
            Screen::Browse(browse) => ScreenModel::Browse(browse@),
        }
    }
}

/// Something the app asks the program to do.
pub enum AppRequest {
    /// Connect with a typed key, or (key `None`) with the stored one.
    Connect { auth_gen: u64, host: String, api_key: Option<String> },
    /// Write the settings file.
    SaveConfig,
    /// Store the key in the keyring.
    StoreKey(String),
    /// Drop the stored key.
    DeleteKey,
}

/// A request as values.
#[verifier::ext_equal]
pub enum AppCall {
    Connect { auth_gen: u64, host: Seq<char>, api_key: Option<Seq<char>> },
    SaveConfig,
    StoreKey(Seq<char>),
    DeleteKey,
}

impl View for AppRequest {
    type V = AppCall;

    open spec fn view(&self) -> AppCall {
        match self {
            AppRequest::Connect { auth_gen, host, api_key } => AppCall::Connect {
                auth_gen: *auth_gen,
                host: host@,
                api_key: opt_text(*api_key),
            },
            AppRequest::SaveConfig => AppCall::SaveConfig,
            AppRequest::StoreKey(key) => AppCall::StoreKey(key@),
            AppRequest::DeleteKey => AppCall::DeleteKey,
        }
    }
}

/// Requests as values, in order.
pub open spec fn app_calls(list: Seq<AppRequest>) -> Seq<AppCall> {
    list.map_values(|r: AppRequest| r@)
}

/// An answer to something that was asked of the server or the keyring.
#[allow(inconsistent_fields)]
pub enum Msg {
    /// A connect attempt came back, with the server's address on success.
    ConnectDone { auth_gen: u64, result: Result<String, Error> },
    MoviesLoaded { fetch_gen: u64, result: Result<Vec<Arc<Movie>>, Error> },
    /// The positions of the movie list in the order of the chosen sort.
    Sorted { order: Vec<usize> },
    QueueLoaded { queue_gen: u64, result: Result<Vec<QueueItem>, Error> },
    ReleasesLoaded { fetch_gen: u64, result: Result<Vec<Release>, Error> },
    HistoryLoaded { fetch_gen: u64, result: Result<Vec<HistoryRecord>, Error> },
    CommandDone { fetch_gen: u64, kind: CommandKind, result: Result<(), Error> },
    LookupLoaded { add_lookup_gen: u64, result: Result<Vec<LookupEntry>, Error> },
    AddOptionsLoaded {
        prereq_gen: u64,
        result: Result<(Vec<RootFolder>, Vec<QualityProfile>), Error>,
    },
    MovieAdded { add_gen: u64, result: Result<Arc<Movie>, Error> },
    AutoSearchStarted { auto_search_gen: u64, result: Result<Command, Error> },
    AutoSearchPolled { auto_search_gen: u64, result: Result<Command, Error> },
    /// The key could not be stored.
    KeyringError(String),
}

/// The Radarr app.
pub struct RadarrApp {
    pub screen: Screen,
    /// Bumped whenever a connect attempt starts or is cancelled, so stale
    /// results are ignored.
    pub auth_gen: u64,
    /// The last generation of the browse screen before the current one, so
    /// that generations go on across re-connects.
    pub browse_gen: u64,
    /// How many sorts the program offers.
    pub sort_count: usize,
    /// What the program is asked to do, in order.
    pub outbox: Vec<AppRequest>,
}

/// The Radarr app as values.
pub struct RadarrModel {
    pub screen: ScreenModel,
    pub auth_gen: u64,
    pub browse_gen: u64,
    pub sort_count: usize,
    pub outbox: Seq<AppCall>,
}

impl View for RadarrApp {
    type V = RadarrModel;

    open spec fn view(&self) -> RadarrModel {
        RadarrModel {
            screen: self.screen@,
            auth_gen: self.auth_gen,
            browse_gen: self.browse_gen,
            sort_count: self.sort_count,
            outbox: app_calls(self.outbox@),
        }
    }
}

impl RadarrModel {
    pub open spec fn initial(sort_count: usize) -> RadarrModel {
        RadarrModel {
            screen: ScreenModel::Boot,
            auth_gen: 0,
            browse_gen: 0,
            sort_count,
            outbox: Seq::empty(),
        }
    }

    /// What always holds of the app.
    pub open spec fn wf(self) -> bool {
        match self.screen {
            ScreenModel::Setup(form) => form.form.wf(),
            ScreenModel::Browse(browse) => browse.wf(),
            _ => true,
        }
    }

    pub open spec fn sent(self, call: AppCall) -> RadarrModel {
        RadarrModel { outbox: self.outbox.push(call), ..self }
    }

    pub open spec fn showing(self, screen: ScreenModel) -> RadarrModel {
        RadarrModel { screen, ..self }
    }

    /// A connect attempt under a generation of its own.
    pub open spec fn connecting(self, host: Seq<char>, api_key: Option<Seq<char>>) -> RadarrModel {
        let gen = next_gen(self.auth_gen);
        RadarrModel { auth_gen: gen, ..self }.sent(
            AppCall::Connect { auth_gen: gen, host, api_key },
        )
    }

    /// The app brought to the front for the first time.
    pub open spec fn activated(self, config: ConfigModel) -> RadarrModel {
        if self.screen is Boot {
            if config.radarr_host.len() == 0 {
                self.showing(ScreenModel::Setup(SetupModel::opened(config.radarr_host)))
            } else {
                self.showing(ScreenModel::Connecting).connecting(config.radarr_host, None)
            }
        } else {
            self
        }
    }

    /// The app after a key.
    pub open spec fn after_key(self, key: KeyEvent, config: ConfigModel) -> RadarrModel {
        match self.screen {
            ScreenModel::Boot => self,
            ScreenModel::Connecting => if key.code == KeyCode::Esc {
                RadarrModel { auth_gen: next_gen(self.auth_gen), ..self }.showing(
                    ScreenModel::Setup(SetupModel::opened(config.radarr_host)),
                )
            } else {
                self
            },
            ScreenModel::Setup(form) => {
                let after = form.after_key(key);
                if form.submits(key) {
                    self.showing(
                        ScreenModel::Setup(SetupModel { busy: true, error: None, ..after }),
                    ).connecting(after.host(), Some(after.api_key()))
                } else {
                    self.showing(ScreenModel::Setup(after))
                }
            },
            ScreenModel::Browse(browse) => self.showing(
                ScreenModel::Browse(browse.after_key(key)),
            ),
        }
    }

    /// Whether a key asks to quit.
    pub open spec fn quits(self, key: KeyEvent) -> bool {
        match self.screen {
            ScreenModel::Connecting => key.code == KeyCode::Char('q'),
            ScreenModel::Browse(browse) => browse.quits(key),
            _ => false,
        }
    }

    /// The stored key dropped and the setup form shown: the server answers
    /// that the key is no good.
    pub open spec fn expired(self, config: ConfigModel) -> RadarrModel {
        RadarrModel { auth_gen: next_gen(self.auth_gen), ..self }.sent(
            AppCall::DeleteKey,
        ).showing(
            ScreenModel::Setup(
                SetupModel {
                    error: Some("API key rejected, please enter it again"@),
                    ..SetupModel::opened(config.radarr_host)
                },
            ),
        )
    }

    /// The browse screen that a connect opens, with a warning where traffic is
    /// not encrypted.
    pub open spec fn opened_browse(self, host: Seq<char>) -> BrowseModel {
        let browse = BrowseModel::initial(
            self.browse_gen,
            self.sort_count,
        ).fetch_movies().fetch_queue();
        if plain(host) {
            browse.noticed(PLAIN_HTTP_NOTICE)
        } else {
            browse
        }
    }

    /// A current connect attempt came back.
    pub open spec fn connected(self, result: Result<Seq<char>, Error>, config: ConfigModel) -> (
        RadarrModel,
        ConfigModel,
    ) {
        match result {
            Ok(host) => {
                let saved = self.sent(AppCall::SaveConfig);
                let stored = match self.screen {
                    ScreenModel::Setup(form) => saved.sent(AppCall::StoreKey(form.api_key())),
                    _ => saved,
                };
                (
                    stored.showing(ScreenModel::Browse(self.opened_browse(host))),
                    ConfigModel { radarr_host: host, ..config },
                )
            },
            Err(Error::MissingApiKey) => (
                if self.screen is Setup {
                    self
                } else {
                    self.showing(ScreenModel::Setup(SetupModel::opened(config.radarr_host)))
                },
                config,
            ),
            Err(err) => {
                let form = match self.screen {
                    ScreenModel::Setup(form) => form,
                    _ => SetupModel::opened(config.radarr_host),
                };
                (
                    self.showing(
                        ScreenModel::Setup(
                            SetupModel { busy: false, error: Some(err.text()), ..form },
                        ),
                    ),
                    config,
                )
            },
        }
    }

    /// The browse screen after an answer; a rejected key ends the session. The
    /// last generation is kept for the next one.
    pub open spec fn browsed(
        self,
        browse: BrowseModel,
        key_rejected: bool,
        config: ConfigModel,
    ) -> RadarrModel {
        if key_rejected {
            RadarrModel { browse_gen: browse.gens.counter, ..self }.expired(config)
        } else {
            self.showing(ScreenModel::Browse(browse))
        }
    }

    /// An answer for the browse screen: what it turns the screen into, and
    /// whether it says that the key was rejected. Anything but a result of the
    /// awaited generation changes nothing.
    pub open spec fn answered(browse: BrowseModel, msg: Msg) -> (BrowseModel, bool) {
        match msg {
            Msg::ConnectDone { .. } => (browse, false),
            Msg::MoviesLoaded { fetch_gen, result } => (
                browse.after_movies(fetch_gen, listed(result)),
                fetch_gen == browse.gens.fetch && rejected(result),
            ),
            Msg::Sorted { order } => (browse.sorted(order@), false),
            Msg::QueueLoaded { queue_gen, result } => (
                browse.after_queue(queue_gen, listed(result)),
                queue_gen == browse.gens.queue && rejected(result),
            ),
            Msg::ReleasesLoaded { fetch_gen, result } => (
                browse.after_releases(fetch_gen, listed(result)),
                fetch_gen == browse.gens.fetch && rejected(result),
            ),
            Msg::HistoryLoaded { fetch_gen, result } => (
                browse.after_history(fetch_gen, listed(result)),
                fetch_gen == browse.gens.fetch && rejected(result),
            ),
            Msg::CommandDone { fetch_gen, kind, result } => (
                browse.after_command(fetch_gen, kind, result),
                fetch_gen == browse.gens.fetch && rejected(result),
            ),
            Msg::LookupLoaded { add_lookup_gen, result } => (
                browse.after_lookup(add_lookup_gen, listed(result)),
                add_lookup_gen == browse.gens.add_lookup && rejected(result),
            ),
            Msg::AddOptionsLoaded { prereq_gen, result } => (
                browse.after_add_options(prereq_gen, options(result)),
                prereq_gen == browse.gens.add_prereq && rejected(result),
            ),
            Msg::MovieAdded { add_gen, result } => (
                browse.after_added(add_gen, result),
                add_gen == browse.gens.add && rejected(result),
            ),
            Msg::AutoSearchStarted { auto_search_gen, result } => (
                browse.after_search_started(auto_search_gen, result),
                rejects_key(browse.monitors, auto_search_gen, result),
            ),
            Msg::AutoSearchPolled { auto_search_gen, result } => (
                browse.after_search_polled(auto_search_gen, result),
                rejects_key(browse.monitors, auto_search_gen, result),
            ),
            Msg::KeyringError(message) => (
                BrowseModel {
                    status: StatusModel { error: Some(message@), ..browse.status },
                    ..browse
                },
                false,
            ),
        }
    }

    /// The app and the settings after an answer. Results that arrive while no
    /// browse screen is there are stale.
    pub open spec fn after_event(self, msg: Msg, config: ConfigModel) -> (
        RadarrModel,
        ConfigModel,
    ) {
        match msg {
            Msg::ConnectDone { auth_gen, result } => if auth_gen != self.auth_gen {
                (self, config)
            } else {
                self.connected(
                    match result {
                        Ok(host) => Ok(host@),
                        Err(err) => Err(err),
                    },
                    config,
                )
            },
            _ => match self.screen {
                ScreenModel::Browse(browse) => {
                    let (after, key_rejected) = RadarrModel::answered(browse, msg);
                    (self.browsed(after, key_rejected, config), config)
                },
                _ => (self, config),
            },
        }
    }

    pub open spec fn after_tick(self) -> RadarrModel {
        match self.screen {
            ScreenModel::Browse(browse) => self.showing(ScreenModel::Browse(browse.after_tick())),
            _ => self,
        }
    }
}

/// A connect attempt that was superseded or cancelled can never come back.
pub proof fn law_superseded_connects_are_dropped(
    app: RadarrModel,
    auth_gen: u64,
    result: Result<String, Error>,
    config: ConfigModel,
)
    requires
        auth_gen != app.auth_gen,
    ensures
        app.after_event(Msg::ConnectDone { auth_gen, result }, config) == (app, config),
{
}

/// Cancelling the automatic connect makes its answer stale.
pub proof fn law_cancelled_connects_are_dropped(
    app: RadarrModel,
    key: KeyEvent,
    result: Result<String, Error>,
    config: ConfigModel,
)
    requires
        app.screen is Connecting,
        key.code == KeyCode::Esc,
    ensures
        ({
            let after = app.after_key(key, config);
            after.after_event(Msg::ConnectDone { auth_gen: app.auth_gen, result }, config) == (
                after,
                config,
            )
        }),
{
}

/// Results that arrive while the browse screen is not there change nothing.
pub proof fn law_results_without_a_browse_are_stale(
    app: RadarrModel,
    msg: Msg,
    config: ConfigModel,
)
    requires
        !(app.screen is Browse),
        !(msg is ConnectDone),
    ensures
        app.after_event(msg, config) == (app, config),
{
}

/// The session ends, and the stored key goes, only for a rejected key.
pub proof fn law_only_a_rejected_key_ends_the_session(
    app: RadarrModel,
    browse: BrowseModel,
    msg: Msg,
    config: ConfigModel,
)
    requires
        app.screen == ScreenModel::Browse(browse),
        !(msg is ConnectDone),
    ensures
        app.after_event(msg, config).0.screen is Setup <==> RadarrModel::answered(browse, msg).1,
        app.after_event(msg, config).0.outbox == (if RadarrModel::answered(browse, msg).1 {
            app.outbox.push(AppCall::DeleteKey)
        } else {
            app.outbox
        }),
        app.after_event(msg, config).1 == config,
{
}

/// A new browse screen goes on counting generations where the one before it
/// ended, so that an answer to the old one is stale on the new one.
pub proof fn law_generations_go_on_across_sessions(
    app: RadarrModel,
    browse: BrowseModel,
    msg: Msg,
    host: Seq<char>,
    config: ConfigModel,
    old: Gens,
)
    requires
        app.screen == ScreenModel::Browse(browse),
        !(msg is ConnectDone),
        RadarrModel::answered(browse, msg).1,
        old == RadarrModel::answered(browse, msg).0.gens,
        RadarrModel::answered(browse, msg).0.gens_in_order(),
        old.counter < u64::MAX - 1,
    ensures
        ({
            let next = app.after_event(msg, config).0.opened_browse(host);
            next.gens.fetch > old.counter && next.gens.queue > old.counter
        }),
{
}

/// Whatever is answered, the browse screen stays well-formed.
pub proof fn law_answers_keep_the_browse_well_formed(browse: BrowseModel, msg: Msg)
    requires
        browse.wf(),
    ensures
        RadarrModel::answered(browse, msg).0.wf(),
{
    match msg {
        Msg::MoviesLoaded { fetch_gen, result } => {
            if result is Ok {
                assert(result->Ok_0.len() == result->Ok_0@.len());
            }
            lemma_movies_wf(browse, fetch_gen, listed(result));
        },
        Msg::Sorted { order } => {
            assert(order.len() == order@.len());
            lemma_sorted_wf(browse, order@);
        },
        Msg::QueueLoaded { queue_gen, result } => {
            lemma_quiet_answers_wf(
                browse,
                queue_gen,
                listed(result),
                arbitrary(),
                arbitrary(),
                arbitrary(),
                arbitrary(),
            );
        },
        Msg::ReleasesLoaded { fetch_gen, result } => {
            lemma_quiet_answers_wf(
                browse,
                fetch_gen,
                arbitrary(),
                listed(result),
                arbitrary(),
                arbitrary(),
                arbitrary(),
            );
        },
        Msg::HistoryLoaded { fetch_gen, result } => {
            lemma_quiet_answers_wf(
                browse,
                fetch_gen,
                arbitrary(),
                arbitrary(),
                listed(result),
                arbitrary(),
                arbitrary(),
            );
        },
        Msg::AddOptionsLoaded { prereq_gen, result } => {
            lemma_quiet_answers_wf(
                browse,
                prereq_gen,
                arbitrary(),
                arbitrary(),
                arbitrary(),
                options(result),
                arbitrary(),
            );
        },
        Msg::AutoSearchStarted { auto_search_gen, result } => {
            lemma_quiet_answers_wf(
                browse,
                auto_search_gen,
                arbitrary(),
                arbitrary(),
                arbitrary(),
                arbitrary(),
                result,
            );
        },
        Msg::AutoSearchPolled { auto_search_gen, result } => {
            lemma_quiet_answers_wf(
                browse,
                auto_search_gen,
                arbitrary(),
                arbitrary(),
                arbitrary(),
                arbitrary(),
                result,
            );
        },
        Msg::CommandDone { fetch_gen, kind, result } => {
            lemma_command_wf(browse, fetch_gen, kind, result);
        },
        Msg::LookupLoaded { add_lookup_gen, result } => {
            lemma_lookup_wf(browse, add_lookup_gen, listed(result));
        },
        Msg::MovieAdded { add_gen, result } => {
            lemma_added_wf(browse, add_gen, result);
        },
        _ => {},
    }
}

impl RadarrApp {
    pub fn new(sort_count: usize) -> (app: RadarrApp)
        ensures
            app@ == RadarrModel::initial(sort_count),
            app@.wf(),
    {
        let app = RadarrApp {
            screen: Screen::Boot,
            auth_gen: 0,
            browse_gen: 0,
            sort_count,
            outbox: Vec::new(),
        };
        assert(app@.outbox =~= Seq::empty());
        app
    }

    pub fn id(&self) -> (id: &'static str)
        ensures
            id == "radarr",
    {
        "radarr"
    }

    pub fn title(&self) -> (title: &'static str)
        ensures
            title == "Radarr",
    {
        "Radarr"
    }

    /// Hand the collected requests over.
    pub fn take_requests(&mut self) -> (list: Vec<AppRequest>)
        ensures
            app_calls(list@) == old(self)@.outbox,
            final(self)@ == (RadarrModel { outbox: Seq::empty(), ..old(self)@ }),
    {
        let mut list: Vec<AppRequest> = Vec::new();
        std::mem::swap(&mut list, &mut self.outbox);
        assert(app_calls(self.outbox@) =~= Seq::empty());
        list
    }

    /// Hand over what the browse screen asks for.
    pub fn take_browse_requests(&mut self) -> (list: Vec<Request>)
        ensures
            match old(self)@.screen {
                ScreenModel::Browse(browse) => requests(list@) == browse.outbox && final(self)@
                    == old(self)@.showing(
                    ScreenModel::Browse(BrowseModel { outbox: Seq::empty(), ..browse }),
                ),
                _ => list@.len() == 0 && final(self)@ == old(self)@,
            },
    {
        let mut screen: Screen = Screen::Boot;
        std::mem::swap(&mut screen, &mut self.screen);
        match screen {
            Screen::Browse(browse) => {
                let mut browse: Browse = browse;
                let list: Vec<Request> = browse.take_requests();
                self.screen = Screen::Browse(browse);
                list
            },
            other => {
                self.screen = other;
                Vec::new()
            },
        }
    }

    fn send(&mut self, request: AppRequest)
        ensures
            final(self)@ == old(self)@.sent(request@),
    {
        let ghost before = self.outbox@;
        self.outbox.push(request);
        assert(app_calls(self.outbox@) =~= app_calls(before).push(request@));
    }

    /// Connect with the key typed into the form, or (key `None`) with the one
    /// stored in the keyring.
    fn spawn_connect(&mut self, host: String, api_key: Option<String>)
        ensures
            final(self)@ == old(self)@.connecting(host@, opt_text(api_key)),
    {
        self.auth_gen = following_gen(self.auth_gen);
        let auth_gen: u64 = self.auth_gen;
        self.send(AppRequest::Connect { auth_gen, host, api_key });
    }

    pub fn activate(&mut self, config: &Config)
        requires
            old(self)@.wf(),
        ensures
            final(self)@ == old(self)@.activated(config@),
            final(self)@.wf(),
    {
        if matches!(self.screen, Screen::Boot) {
            if config.radarr.host.as_str().is_empty() {
                self.screen = Screen::Setup(SetupForm::from_config(&config.radarr));
            } else {
                self.screen = Screen::Connecting;
                self.spawn_connect(config.radarr.host.clone(), None);
            }
        }
    }

    pub fn on_key(&mut self, key: KeyEvent, config: &Config) -> (request: Option<ShellRequest>)
        requires
            old(self)@.wf(),
        ensures
            final(self)@ == old(self)@.after_key(key, config@),
            request == (if old(self)@.quits(key) {
                Some(ShellRequest::Quit)
            } else {
                None
            }),
            final(self)@.wf(),
    {
        let mut screen: Screen = Screen::Boot;
        std::mem::swap(&mut screen, &mut self.screen);
        match screen {
            Screen::Boot => None,
            Screen::Connecting => match key.code {
                KeyCode::Esc => {
                    // Cancel the pending attempt and drop to the form.
                    self.auth_gen = following_gen(self.auth_gen);
                    self.screen = Screen::Setup(SetupForm::from_config(&config.radarr));
                    None
                },
                KeyCode::Char('q') => {
                    self.screen = Screen::Connecting;
                    Some(ShellRequest::Quit)
                },
                _ => {
                    self.screen = Screen::Connecting;
                    None
                },
            },
            Screen::Setup(form) => {
                let mut form: SetupForm = form;
                if form.on_key(key).is_some() {
                    form.busy = true;
                    form.error = None;
                    let host: String = form.host();
                    let api_key: String = form.api_key();
                    self.screen = Screen::Setup(form);
                    self.spawn_connect(host, Some(api_key));
                } else {
                    self.screen = Screen::Setup(form);
                }
                None
            },
            Screen::Browse(browse) => {
                let mut browse: Browse = browse;
                let action: Option<BrowseAction> = browse.on_key(key);
                self.screen = Screen::Browse(browse);
                match action {
                    Some(BrowseAction::Quit) => Some(ShellRequest::Quit),
                    None => None,
                }
            },
        }
    }

    pub fn on_tick(&mut self)
        requires
            old(self)@.wf(),
        ensures
            final(self)@ == old(self)@.after_tick(),
            final(self)@.wf(),
    {
        let mut screen: Screen = Screen::Boot;
        std::mem::swap(&mut screen, &mut self.screen);
        match screen {
            Screen::Browse(browse) => {
                let mut browse: Browse = browse;
                browse.on_tick();
                self.screen = Screen::Browse(browse);
            },
            other => {
                self.screen = other;
            },
        }
    }

    /// Drop the stored key and return to the setup form; used when the server
    /// starts answering that the key is no good (revoked or regenerated).
    fn on_session_expired(&mut self, config: &Config)
        ensures
            final(self)@ == old(self)@.expired(config@),
            final(self)@.wf(),
    {
        self.send(AppRequest::DeleteKey);
        self.auth_gen = following_gen(self.auth_gen);
        let mut form: SetupForm = SetupForm::from_config(&config.radarr);
        form.error = Some("API key rejected, please enter it again".to_owned());
        self.screen = Screen::Setup(form);
    }

    /// A connect attempt came back: the host goes into the settings, the key
    /// (typed ones only) into the keyring, and the browse screen opens; or the
    /// form says what went wrong.
    fn on_connect_done(&mut self, result: Result<String, Error>, config: &mut Config)
        requires
            old(self)@.wf(),
        ensures
            (final(self)@, final(config)@) == old(self)@.connected(
                (match result {
                    Ok(host) => Ok(host@),
                    Err(err) => Err(err),
                }),
                old(config)@,
            ),
            final(self)@.wf(),
    {
        match result {
            Ok(host) => {
                let form_key: Option<String> = match &self.screen {
                    Screen::Setup(form) => Some(form.api_key()),
                    _ => None,
                };
                self.send(AppRequest::SaveConfig);
                if let Some(key) = form_key {
                    self.send(AppRequest::StoreKey(key));
                }
                let mut browse: Browse = Browse::new(self.browse_gen, self.sort_count);
                if is_plain_http(host.as_str()) {
                    // The setup form warns about this too, but an automatic
                    // connect never shows the form.
                    browse.status.notice = Some(PLAIN_HTTP_NOTICE);
                }
                config.radarr.host = host;
                self.screen = Screen::Browse(browse);
            },
            // No key stored yet: first run, show a clean form.
            Err(Error::MissingApiKey) => {
                if !matches!(self.screen, Screen::Setup(_)) {
                    self.screen = Screen::Setup(SetupForm::from_config(&config.radarr));
                }
            },
            Err(err) => {
                let mut screen: Screen = Screen::Boot;
                std::mem::swap(&mut screen, &mut self.screen);
                let mut form: SetupForm = match screen {
                    Screen::Setup(form) => form,
                    _ => SetupForm::from_config(&config.radarr),
                };
                form.busy = false;
                form.error = Some(err.message());
                self.screen = Screen::Setup(form);
            },
        }
    }

    /// Hand an answer to the browse screen. It checks staleness first and only
    /// reports a key rejection for a current answer; a stale one belongs to an
    /// old key and must not end a fresh session.
    fn answer(browse: Browse, msg: Msg) -> (answered: (Browse, bool))
        requires
            browse@.wf(),
        ensures
            (answered.0@, answered.1) == RadarrModel::answered(browse@, msg),
            answered.0@.wf(),
    {
        proof {
            law_answers_keep_the_browse_well_formed(browse@, msg);
        }
        let mut browse: Browse = browse;
        let rejected: bool = match msg {
            Msg::ConnectDone { .. } => false,
            Msg::MoviesLoaded { fetch_gen, result } => {
                browse.on_movies_loaded(fetch_gen, result)
            },
            Msg::Sorted { order } => {
                browse.on_sorted(order);
                false
            },
            Msg::QueueLoaded { queue_gen, result } => browse.on_queue_loaded(queue_gen, result),
            Msg::ReleasesLoaded { fetch_gen, result } => browse.on_releases_loaded(
                fetch_gen,
                result,
            ),
            Msg::HistoryLoaded { fetch_gen, result } => browse.on_history_loaded(
                fetch_gen,
                result,
            ),
            Msg::CommandDone { fetch_gen, kind, result } => browse.on_command_done(
                fetch_gen,
                kind,
                result,
            ),
            Msg::LookupLoaded { add_lookup_gen, result } => browse.on_lookup_loaded(
                add_lookup_gen,
                result,
            ),
            Msg::AddOptionsLoaded { prereq_gen, result } => browse.on_add_options_loaded(
                prereq_gen,
                result,
            ),
            Msg::MovieAdded { add_gen, result } => browse.on_movie_added(add_gen, result),
            Msg::AutoSearchStarted { auto_search_gen, result } => browse.on_auto_search_started(
                auto_search_gen,
                result,
            ),
            Msg::AutoSearchPolled { auto_search_gen, result } => browse.on_auto_search_polled(
                auto_search_gen,
                result,
            ),
            Msg::KeyringError(message) => {
                browse.status.error = Some(message);
                false
            },
        };
        (browse, rejected)
    }

    pub fn on_event(&mut self, msg: Msg, config: &mut Config)
        requires
            old(self)@.wf(),
        ensures
            (final(self)@, final(config)@) == old(self)@.after_event(msg, old(config)@),
            final(self)@.wf(),
    {
        match msg {
            Msg::ConnectDone { auth_gen, result } => {
                if auth_gen == self.auth_gen {
                    self.on_connect_done(result, config);
                }
            },
            msg => {
                let mut screen: Screen = Screen::Boot;
                std::mem::swap(&mut screen, &mut self.screen);
                match screen {
                    Screen::Browse(browse) => {
                        let (browse, rejected) = RadarrApp::answer(browse, msg);
                        if rejected {
                            self.browse_gen = browse.gens.counter;
                            self.on_session_expired(config);
                        } else {
                            self.screen = Screen::Browse(browse);
                        }
                    },
                    other => {
                        self.screen = other;
                    },
                }
            },
        }
    }

    /// The background auto-search status for the shell's status bar, so it
    /// stays visible even from another tab.
    pub fn status_line(&self) -> (line: Option<Vec<Span>>)
        ensures
            match self@.screen {
                ScreenModel::Browse(browse) => is_status_line(
                    "Radarr"@,
                    browse.monitors,
                    shown_line(line),
                ),
                _ => line is None,
            },
    {
        match &self.screen {
            Screen::Browse(browse) => browse.status_line(),
            _ => None,
        }
    }
}

} // verus!
