//! The Radarr browse screen as a mathematical state: what it holds, and what
//! each key, tick and answer turns it into.

use serde_json::Value;
use std::sync::Arc;
use vstd::prelude::*;

use crate::app::{next_gen, KeyCode, KeyEvent};
use crate::apps::auto_search::{
    kept, poll_completes, polls, ticked, wants_queue, with_polled, with_started, MonitorModel,
};
use crate::apps::delete_prompt::{DeleteAction, DeletePromptModel};
use crate::apps::downloads::{queue_ids, ActionModel, DownloadsModel};
use crate::apps::radarr::browse::{
    label_text, preferred_quality, AddFlow, AddStep, Confirm, Gens, Level, LookupEntry, Overview,
    Sorting, MIN_AVAILABILITY, QUEUE_POLL_TICKS, SPINNER_FRAMES,
};
use crate::apps::radarr::msg::{CallModel, CommandKind, RequestModel};
use crate::arr::models::{Command, HistoryRecord, QualityProfile, QueueItem, Release, RootFolder};
use crate::arr::Error;
use crate::json::{json_bool, json_int, json_object_of, json_text, json_with_member};
use crate::radarr::Movie;
use crate::text::{blank, lowercase, occurs};
use crate::ui::input::TextModel;
use crate::ui::list::{is_order, menu_down, raised, reordered, stepped, Step};

verus! {

/// The lists as values.
pub struct ListsModel {
    pub all_movies: Seq<Arc<Movie>>,
    pub movies: Seq<Arc<Movie>>,
    pub movie_cursor: usize,
    pub releases: Seq<Release>,
    pub release_cursor: usize,
    pub queue: Seq<QueueItem>,
    pub history: Seq<HistoryRecord>,
}

/// The title filter as values.
pub struct FilterModel {
    pub input: TextModel,
    pub active: bool,
    pub focused: bool,
}

/// The popups as values.
pub struct PopupsModel {
    pub sort_menu: Option<usize>,
    pub search_menu: Option<usize>,
    pub confirm: Option<Confirm>,
    pub delete_prompt: Option<DeletePromptModel>,
    pub rejections: Option<usize>,
}

/// The add screen as values.
pub struct AddModel {
    pub search: TextModel,
    pub search_focused: bool,
    pub results: Seq<Arc<Movie>>,
    pub raw: Seq<Value>,
    pub cursor: usize,
    pub root_folders: Seq<RootFolder>,
    pub quality_profiles: Seq<QualityProfile>,
    pub submitting: bool,
    pub flow: Option<AddFlow>,
    pub pending_search: bool,
}

/// The chrome as values.
pub struct StatusModel {
    pub loading: bool,
    pub queue_loading: bool,
    pub error: Option<Seq<char>>,
    pub notice: Option<&'static str>,
    pub has_fetched: bool,
    pub show_full_help: bool,
    pub tick_count: u32,
    pub spinner_frame: usize,
    pub last_height: u16,
}

/// The browse screen as values.
pub struct BrowseModel {
    pub level: Level,
    pub lists: ListsModel,
    pub downloads: DownloadsModel,
    pub filter: FilterModel,
    pub sort: Sorting,
    pub popups: PopupsModel,
    pub add: AddModel,
    pub monitors: Seq<MonitorModel>,
    pub overview: Overview,
    pub status: StatusModel,
    pub gens: Gens,
    pub outbox: Seq<RequestModel>,
}

/// A movie's title, empty where it has none.
pub open spec fn title_of(movie: Movie) -> Seq<char> {
    match movie.title {
        Some(title) => title@,
        None => Seq::empty(),
    }
}

/// Whether a movie's title contains the needle, whatever the case.
pub open spec fn title_matches(movie: Movie, needle: Seq<char>) -> bool {
    occurs(lowercase(title_of(movie)), needle)
}

/// The movies whose titles contain the needle, in order.
pub open spec fn matching(movies: Seq<Arc<Movie>>, needle: Seq<char>) -> Seq<Arc<Movie>>
    decreases movies.len(),
{
    if movies.len() == 0 {
        Seq::empty()
    } else if title_matches(*movies.last(), needle) {
        matching(movies.drop_last(), needle).push(movies.last())
    } else {
        matching(movies.drop_last(), needle)
    }
}

/// The movies a filter leaves visible: all of them while it is off or empty.
pub open spec fn visible(movies: Seq<Arc<Movie>>, active: bool, filter: Seq<char>) -> Seq<
    Arc<Movie>,
> {
    if !active || filter.len() == 0 {
        movies
    } else {
        matching(movies, lowercase(filter))
    }
}

/// The first movie with an id.
pub open spec fn movie_with_id(movies: Seq<Arc<Movie>>, id: i64) -> Option<Arc<Movie>>
    decreases movies.len(),
{
    if movies.len() == 0 {
        None
    } else if movies[0].id == id {
        Some(movies[0])
    } else {
        movie_with_id(movies.drop_first(), id)
    }
}

/// The ids of the queue items that belong to a movie.
pub open spec fn queued_for(queue: Seq<QueueItem>, movie_id: i64) -> Set<i64>
    decreases queue.len(),
{
    if queue.len() == 0 {
        Set::empty()
    } else {
        let before = queued_for(queue.drop_last(), movie_id);
        if queue.last().movie_id == Some(movie_id) {
            before.insert(queue.last().id)
        } else {
            before
        }
    }
}

/// Whether a queue item counts as a result of a monitored search.
pub open spec fn is_new_item(item: QueueItem, monitor: MonitorModel) -> bool {
    item.movie_id == Some(monitor.target_id) && !monitor.baseline.contains(item.id)
}

/// How many queue items a monitored search has brought.
pub open spec fn new_items(queue: Seq<QueueItem>, monitor: MonitorModel) -> nat
    decreases queue.len(),
{
    if queue.len() == 0 {
        0
    } else {
        new_items(queue.drop_last(), monitor) + if is_new_item(queue.last(), monitor) {
            1nat
        } else {
            0nat
        }
    }
}

/// How many queue items each monitored search has brought.
pub open spec fn new_counts(queue: Seq<QueueItem>, monitors: Seq<MonitorModel>) -> Seq<usize> {
    monitors.map_values(|m: MonitorModel| new_items(queue, m) as usize)
}

/// Polls as requests.
pub open spec fn poll_requests(list: Seq<(u64, i64)>) -> Seq<RequestModel> {
    list.map_values(
        |p: (u64, i64)| RequestModel::PollCommand { generation: p.0, command_id: p.1 },
    )
}

/// The readable entries of a lookup, in order.
pub open spec fn readable(entries: Seq<LookupEntry>) -> Seq<LookupEntry>
    decreases entries.len(),
{
    if entries.len() == 0 {
        Seq::empty()
    } else if entries.last().movie is Some {
        readable(entries.drop_last()).push(entries.last())
    } else {
        readable(entries.drop_last())
    }
}

/// The movies of readable entries.
pub open spec fn entry_movies(entries: Seq<LookupEntry>) -> Seq<Arc<Movie>> {
    readable(entries).map_values(|e: LookupEntry| e.movie->0)
}

/// The objects of readable entries.
pub open spec fn entry_objects(entries: Seq<LookupEntry>) -> Seq<Value> {
    readable(entries).map_values(|e: LookupEntry| e.raw)
}

/// The object that adds a movie: the lookup object with the user's choices set
/// on it, and the server told not to run a search of its own, since the search
/// is run and tracked separately.
pub open spec fn add_body(
    raw: Value,
    quality_profile_id: i64,
    root_folder: Seq<char>,
    monitored: bool,
    availability: Seq<char>,
) -> Value {
    let a = json_with_member(raw, "qualityProfileId"@, json_int(quality_profile_id as int));
    let b = json_with_member(a, "rootFolderPath"@, json_text(root_folder));
    let c = json_with_member(b, "monitored"@, json_bool(monitored));
    let d = json_with_member(c, "minimumAvailability"@, json_text(availability));
    json_with_member(
        d,
        "addOptions"@,
        json_object_of("searchForMovie"@, json_bool(false)),
    )
}

/// The API value of a minimum availability option.
pub open spec fn availability_value(index: usize) -> Seq<char> {
    if index < 3 {
        MIN_AVAILABILITY@[index as int].1@
    } else {
        "announced"@
    }
}

/// A list in place of what a request was answered with.
pub open spec fn listed<T>(result: Result<Vec<T>, Error>) -> Result<Seq<T>, Error> {
    match result {
        Ok(list) => Ok(list@),
        Err(err) => Err(err),
    }
}

/// The wizard's pickers in place of what a request was answered with.
pub open spec fn options(
    result: Result<(Vec<RootFolder>, Vec<QualityProfile>), Error>,
) -> Result<(Seq<RootFolder>, Seq<QualityProfile>), Error> {
    match result {
        Ok((folders, profiles)) => Ok((folders@, profiles@)),
        Err(err) => Err(err),
    }
}

/// Whether an answer says that the key was rejected.
pub open spec fn rejected<T>(result: Result<T, Error>) -> bool {
    result matches Err(err) && err is Unauthorized
}

impl BrowseModel {
    /// A screen before its first fetch.
    pub open spec fn initial(gen_counter: u64, sort_count: usize) -> BrowseModel {
        BrowseModel {
            level: Level::MovieList,
            lists: ListsModel {
                all_movies: Seq::empty(),
                movies: Seq::empty(),
                movie_cursor: 0,
                releases: Seq::empty(),
                release_cursor: 0,
                queue: Seq::empty(),
                history: Seq::empty(),
            },
            downloads: DownloadsModel::initial(),
            filter: FilterModel { input: TextModel::empty(), active: false, focused: false },
            sort: Sorting { current: 0, count: sort_count },
            popups: PopupsModel {
                sort_menu: None,
                search_menu: None,
                confirm: None,
                delete_prompt: None,
                rejections: None,
            },
            add: AddModel {
                search: TextModel::empty(),
                search_focused: false,
                results: Seq::empty(),
                raw: Seq::empty(),
                cursor: 0,
                root_folders: Seq::empty(),
                quality_profiles: Seq::empty(),
                submitting: false,
                flow: None,
                pending_search: false,
            },
            monitors: Seq::empty(),
            overview: Overview { fullscreen: false, scroll: 0 },
            status: StatusModel {
                loading: false,
                queue_loading: false,
                error: None,
                notice: None,
                has_fetched: false,
                show_full_help: false,
                tick_count: 0,
                spinner_frame: 0,
                last_height: 24,
            },
            gens: Gens {
                counter: gen_counter,
                fetch: 0,
                queue: 0,
                add_lookup: 0,
                add_prereq: 0,
                add: 0,
            },
            outbox: Seq::empty(),
        }
    }

    /// What always holds of a screen.
    pub open spec fn wf(self) -> bool {
        &&& self.downloads.wf()
        &&& (self.popups.delete_prompt is Some ==> self.popups.delete_prompt->0.wf())
        &&& self.status.spinner_frame < SPINNER_FRAMES
        &&& self.add.results.len() == self.add.raw.len()
        &&& self.lists.movies == visible(
            self.lists.all_movies,
            self.filter.active,
            self.filter.input.value,
        )
        &&& self.lists.all_movies.len() <= usize::MAX
        &&& (self.lists.movie_cursor < self.lists.movies.len() || self.lists.movie_cursor == 0)
        &&& (!self.filter.active ==> self.filter.input.value.len() == 0)
        &&& (self.filter.focused ==> self.filter.active)
    }

    /// No awaited generation lies ahead of the counter. It holds from the
    /// start and until the counter starts over.
    pub open spec fn gens_in_order(self) -> bool {
        &&& self.gens.fetch <= self.gens.counter
        &&& self.gens.queue <= self.gens.counter
        &&& self.gens.add_lookup <= self.gens.counter
        &&& self.gens.add_prereq <= self.gens.counter
        &&& self.gens.add <= self.gens.counter
    }

    pub open spec fn sent(self, request: RequestModel) -> BrowseModel {
        BrowseModel { outbox: self.outbox.push(request), ..self }
    }

    pub open spec fn idle(self) -> BrowseModel {
        BrowseModel { status: StatusModel { loading: false, ..self.status }, ..self }
    }

    pub open spec fn noticed(self, notice: &'static str) -> BrowseModel {
        BrowseModel { status: StatusModel { notice: Some(notice), ..self.status }, ..self }
    }

    pub open spec fn failed(self, err: Error) -> BrowseModel {
        BrowseModel { status: StatusModel { error: Some(err.text()), ..self.status }, ..self }
    }

    // Requests.

    /// A list fetch started under a generation of its own; any result carrying
    /// an older generation is stale. The connect-time notice has been seen once
    /// the user navigates.
    pub open spec fn begin_fetch(self) -> BrowseModel {
        let gen = next_gen(self.gens.counter);
        let notice = if self.status.has_fetched {
            None
        } else {
            self.status.notice
        };
        BrowseModel {
            status: StatusModel { loading: true, error: None, notice, has_fetched: true, ..self.status },
            gens: Gens { counter: gen, fetch: gen, ..self.gens },
            ..self
        }
    }

    pub open spec fn fetch_movies(self) -> BrowseModel {
        let s = self.begin_fetch();
        s.sent(RequestModel::Movies { fetch_gen: s.gens.fetch })
    }

    /// One queue poll, unless another is in flight.
    pub open spec fn fetch_queue(self) -> BrowseModel {
        if self.status.queue_loading {
            self
        } else {
            let gen = next_gen(self.gens.counter);
            BrowseModel {
                status: StatusModel { queue_loading: true, ..self.status },
                gens: Gens { counter: gen, queue: gen, ..self.gens },
                ..self
            }.sent(
                RequestModel::Queue { queue_gen: gen },
            )
        }
    }

    /// Releases and the movie's history fetched under one generation.
    pub open spec fn fetch_releases(self, movie_id: i64) -> BrowseModel {
        let s = self.begin_fetch();
        BrowseModel {
            lists: ListsModel {
                releases: Seq::empty(),
                history: Seq::empty(),
                release_cursor: 0,
                ..s.lists
            },
            ..s
        }.sent(RequestModel::Releases { fetch_gen: s.gens.fetch, movie_id }).sent(
            RequestModel::History { fetch_gen: s.gens.fetch, movie_id },
        )
    }

    /// A mutation under the current view generation.
    pub open spec fn spawn_command(self, kind: CommandKind, call: CallModel) -> BrowseModel {
        BrowseModel { status: StatusModel { loading: true, ..self.status }, ..self }.sent(
            RequestModel::Command { fetch_gen: self.gens.fetch, kind, call },
        )
    }

    pub open spec fn fetch_add_options(self) -> BrowseModel {
        let gen = next_gen(self.gens.counter);
        BrowseModel { gens: Gens { counter: gen, add_prereq: gen, ..self.gens }, ..self }.sent(
            RequestModel::AddOptions { prereq_gen: gen },
        )
    }

    /// A lookup for the add screen; a blank term just clears the list.
    pub open spec fn fetch_lookup(self, term: Seq<char>) -> BrowseModel {
        if blank(term) {
            BrowseModel {
                add: AddModel { results: Seq::empty(), raw: Seq::empty(), cursor: 0, ..self.add },
                ..self
            }
        } else {
            let gen = next_gen(self.gens.counter);
            BrowseModel {
                status: StatusModel { loading: true, error: None, ..self.status },
                gens: Gens { counter: gen, add_lookup: gen, ..self.gens },
                ..self
            }.sent(RequestModel::Lookup { add_lookup_gen: gen, term })
        }
    }

    /// A tracked search for a just-added movie, with the downloads it already
    /// has as the baseline.
    pub open spec fn start_auto_search(self, movie_id: i64, title: Seq<char>) -> BrowseModel {
        let gen = next_gen(self.gens.counter);
        let monitor = MonitorModel::starting(
            gen,
            movie_id,
            title,
            queued_for(self.lists.queue, movie_id),
        );
        BrowseModel {
            monitors: self.monitors.push(monitor),
            gens: Gens { counter: gen, ..self.gens },
            ..self
        }.sent(
            RequestModel::AutoSearch { generation: gen, movie_id },
        )
    }

    // The lists.

    pub open spec fn apply_filter(self) -> BrowseModel {
        let movies = visible(self.lists.all_movies, self.filter.active, self.filter.input.value);
        let movie_cursor = if self.lists.movie_cursor >= movies.len() {
            0
        } else {
            self.lists.movie_cursor
        };
        BrowseModel { lists: ListsModel { movies, movie_cursor, ..self.lists }, ..self }
    }

    pub open spec fn selected_movie(self) -> Option<Arc<Movie>> {
        if self.lists.movie_cursor < self.lists.movies.len() {
            Some(self.lists.movies[self.lists.movie_cursor as int])
        } else {
            None
        }
    }

    pub open spec fn selected_release(self) -> Option<Release> {
        if self.lists.release_cursor < self.lists.releases.len() {
            Some(self.lists.releases[self.lists.release_cursor as int])
        } else {
            None
        }
    }

    /// Whether the highlighted release was rejected for stated reasons.
    pub open spec fn has_rejections(self) -> bool {
        self.selected_release() is Some && self.selected_release()->0.rejections@.len() > 0
    }

    /// The cursor of the current level's list and the list's length; `None` on
    /// the (list-less) movie detail.
    pub open spec fn cursor_and_len(self) -> Option<(usize, usize)> {
        match self.level {
            Level::MovieList => Some((self.lists.movie_cursor, self.lists.movies.len() as usize)),
            Level::MovieDetail { .. } => None,
            Level::Search { .. } => Some(
                (self.lists.release_cursor, self.lists.releases.len() as usize),
            ),
            Level::Add => Some((self.add.cursor, self.add.results.len() as usize)),
            Level::Downloads => Some((self.downloads.cursor, self.lists.queue.len() as usize)),
        }
    }

    pub open spec fn with_cursor(self, cursor: usize) -> BrowseModel {
        match self.level {
            Level::MovieList => BrowseModel {
                lists: ListsModel { movie_cursor: cursor, ..self.lists },
                ..self
            },
            Level::MovieDetail { .. } => self,
            Level::Search { .. } => BrowseModel {
                lists: ListsModel { release_cursor: cursor, ..self.lists },
                ..self
            },
            Level::Add => BrowseModel { add: AddModel { cursor, ..self.add }, ..self },
            Level::Downloads => BrowseModel {
                downloads: DownloadsModel { cursor, ..self.downloads },
                ..self
            },
        }
    }

    /// The rows a page key jumps.
    pub open spec fn page_jump(self) -> usize {
        if self.status.last_height / 5 == 0 {
            1
        } else {
            (self.status.last_height / 5) as usize
        }
    }

    pub open spec fn move_cursor(self, step: Step) -> BrowseModel {
        match self.cursor_and_len() {
            Some((cursor, len)) => self.with_cursor(stepped(step, cursor, len, self.page_jump())),
            None => self,
        }
    }

    // Navigation.

    /// Back from the search level to the movie detail, with a refetch.
    pub open spec fn pop_to_detail(self) -> BrowseModel {
        match self.level {
            Level::Search { movie } => BrowseModel {
                level: Level::MovieDetail { movie },
                ..self.fetch_movies().fetch_queue()
            },
            _ => self,
        }
    }

    pub open spec fn open_selected(self) -> BrowseModel {
        match self.level {
            Level::MovieList => match self.selected_movie() {
                Some(movie) => BrowseModel {
                    level: Level::MovieDetail { movie },
                    overview: Overview { scroll: 0, ..self.overview },
                    ..self
                },
                None => self,
            },
            Level::MovieDetail { .. } => BrowseModel {
                popups: PopupsModel { search_menu: Some(0), ..self.popups },
                ..self
            },
            Level::Search { .. } => if self.selected_release() is Some {
                BrowseModel {
                    popups: PopupsModel {
                        confirm: Some(Confirm::Grab { index: self.lists.release_cursor }),
                        ..self.popups
                    },
                    ..self
                }
            } else {
                self
            },
            Level::Add => self.start_add_flow(),
            Level::Downloads => self,
        }
    }

    /// One level up; the list itself has none above it.
    pub open spec fn pop_level(self) -> BrowseModel {
        match self.level {
            Level::MovieList => self,
            Level::Downloads => BrowseModel {
                level: Level::MovieList,
                downloads: DownloadsModel::initial(),
                ..self
            },
            Level::MovieDetail { .. } => BrowseModel {
                level: Level::MovieList,
                overview: Overview { fullscreen: false, ..self.overview },
                ..self
            },
            Level::Search { movie } => BrowseModel {
                level: Level::MovieDetail { movie },
                lists: ListsModel { releases: Seq::empty(), history: Seq::empty(), ..self.lists },
                ..self
            },
            Level::Add => {
                let lookup_gen = next_gen(self.gens.counter);
                let add_gen = next_gen(lookup_gen);
                BrowseModel {
                    level: Level::MovieList,
                    add: AddModel {
                        results: Seq::empty(),
                        raw: Seq::empty(),
                        search: self.add.search.cleared(),
                        search_focused: false,
                        flow: None,
                        submitting: false,
                        ..self.add
                    },
                    gens: Gens {
                        add_lookup: lookup_gen,
                        add: add_gen,
                        counter: add_gen,
                        ..self.gens
                    },
                    status: StatusModel { loading: false, error: None, ..self.status },
                    ..self
                }
            },
        }
    }

    pub open spec fn refresh(self) -> BrowseModel {
        match self.level {
            Level::Downloads => self.fetch_queue(),
            Level::MovieList | Level::MovieDetail { .. } => self.fetch_movies().fetch_queue(),
            Level::Search { movie } => self.fetch_releases(movie.id),
            Level::Add => {
                let s = self.fetch_add_options();
                if blank(self.add.search.value) {
                    s
                } else {
                    s.fetch_lookup(self.add.search.value)
                }
            },
        }
    }

    pub open spec fn execute_confirm(self, confirm: Confirm) -> BrowseModel {
        match confirm {
            Confirm::DeleteFile { file_id } => self.spawn_command(
                CommandKind::DeleteFile,
                CallModel::DeleteMovieFile { file_id },
            ),
            Confirm::Grab { index } => if index < self.lists.releases.len() {
                let release = self.lists.releases[index as int];
                self.spawn_command(
                    CommandKind::Grab,
                    CallModel::GrabRelease { guid: release.guid@, indexer_id: release.indexer_id },
                )
            } else {
                self
            },
        }
    }

    pub open spec fn search_menu_choice(self, choice: usize) -> BrowseModel {
        match self.level {
            Level::MovieDetail { movie } => if choice == 0 {
                self.spawn_command(
                    CommandKind::AutoSearch,
                    CallModel::MovieSearch { movie_id: movie.id },
                )
            } else if choice == 1 {
                BrowseModel { level: Level::Search { movie }, ..self.fetch_releases(movie.id) }
            } else {
                self
            },
            _ => self,
        }
    }

    // Adding.

    /// Whether the wizard has something to offer in each of its pickers.
    pub open spec fn has_add_options(self) -> bool {
        self.add.root_folders.len() > 0 && self.add.quality_profiles.len() > 0
    }

    pub open spec fn enter_add(self) -> BrowseModel {
        let s = BrowseModel {
            level: Level::Add,
            add: AddModel {
                search: self.add.search.cleared().with_focus(true),
                search_focused: true,
                results: Seq::empty(),
                raw: Seq::empty(),
                cursor: 0,
                flow: None,
                submitting: false,
                ..self.add
            },
            status: StatusModel { loading: false, error: None, notice: None, ..self.status },
            ..self
        };
        if self.has_add_options() {
            s
        } else {
            s.fetch_add_options()
        }
    }

    /// The wizard opens on the highlighted result, unless an add is under way
    /// or the pickers have nothing to offer.
    pub open spec fn start_add_flow(self) -> BrowseModel {
        if self.add.submitting {
            self.noticed("an add is already in progress")
        } else if self.add.cursor >= self.add.results.len() {
            self
        } else if !self.has_add_options() {
            self.noticed("add options unavailable: need a root folder and a quality profile")
        } else {
            BrowseModel { add: AddModel { flow: Some(
                    AddFlow {
                        result: self.add.cursor,
                        step: AddStep::RootFolder,
                        cursor: 0,
                        root_folder: None,
                        quality_profile_id: None,
                        min_availability: 2,
                        monitored: true,
                        search: true,
                    },
                ), ..self.add }, ..self }
        }
    }

    /// How many options the wizard's current step has.
    pub open spec fn add_step_options(self) -> int {
        match self.add.flow {
            None => 0,
            Some(flow) => match flow.step {
                AddStep::RootFolder => self.add.root_folders.len() as int,
                AddStep::QualityProfile => self.add.quality_profiles.len() as int,
                AddStep::MinAvailability => 3,
                AddStep::Monitored | AddStep::Download => 2,
            },
        }
    }

    /// The flow with the current step's selection recorded.
    pub open spec fn recorded(self, flow: AddFlow) -> AddFlow {
        match flow.step {
            AddStep::RootFolder => AddFlow {
                root_folder: if flow.cursor < self.add.root_folders.len() {
                    Some(self.add.root_folders[flow.cursor as int].path)
                } else {
                    None
                },
                ..flow
            },
            AddStep::QualityProfile => AddFlow {
                quality_profile_id: if flow.cursor < self.add.quality_profiles.len() {
                    Some(self.add.quality_profiles[flow.cursor as int].id)
                } else {
                    None
                },
                ..flow
            },
            AddStep::MinAvailability => AddFlow { min_availability: flow.cursor, ..flow },
            AddStep::Monitored => AddFlow { monitored: flow.cursor == 0, ..flow },
            AddStep::Download => AddFlow { search: flow.cursor == 0, ..flow },
        }
    }

    /// The option a step opens on.
    pub open spec fn opening_cursor(self, step: AddStep) -> usize {
        match step {
            AddStep::QualityProfile => preferred_quality(self.add.quality_profiles) as usize,
            AddStep::MinAvailability => 2,
            _ => 0,
        }
    }

    /// The current step's selection recorded and the next step opened; the add
    /// committed once the last step is answered.
    pub open spec fn advance_add_flow(self) -> BrowseModel {
        match self.add.flow {
            None => self,
            Some(flow) => {
                let done = self.recorded(flow);
                match flow.step.following() {
                    Some(next) => BrowseModel { add: AddModel { flow: Some(
                            AddFlow { step: next, cursor: self.opening_cursor(next), ..done },
                        ), ..self.add }, ..self },
                    None => BrowseModel {
                        add: AddModel { flow: Some(done), ..self.add },
                        ..self
                    }.commit_add(),
                }
            },
        }
    }

    /// The finished wizard's lookup object, with the user's choices set, sent
    /// to the server under a generation of its own.
    pub open spec fn commit_add(self) -> BrowseModel {
        match self.add.flow {
            None => self,
            Some(flow) => {
                let s = BrowseModel { add: AddModel { flow: None, ..self.add }, ..self };
                if flow.root_folder is None || flow.quality_profile_id is None {
                    s.noticed("add cancelled: no root folder or quality profile")
                } else if flow.result >= self.add.raw.len() {
                    s
                } else {
                    let gen = next_gen(self.gens.counter);
                    BrowseModel {
                        add: AddModel { pending_search: flow.search, submitting: true, ..s.add },
                        status: StatusModel {
                            loading: true,
                            error: None,
                            notice: Some("adding..."),
                            ..s.status
                        },
                        gens: Gens { counter: gen, add: gen, ..s.gens },
                        ..s
                    }.sent(
                        RequestModel::AddMovie {
                            add_gen: gen,
                            body: add_body(
                                self.add.raw[flow.result as int],
                                flow.quality_profile_id->0,
                                flow.root_folder->0@,
                                flow.monitored,
                                availability_value(flow.min_availability),
                            ),
                        },
                    )
                }
            },
        }
    }

    // Keys.

    pub open spec fn filter_key(self, key: KeyEvent) -> BrowseModel {
        let s = match key.code {
            KeyCode::Esc => BrowseModel {
                filter: FilterModel {
                    focused: false,
                    input: self.filter.input.cleared(),
                    active: false,
                    ..self.filter
                },
                ..self
            }.apply_filter(),
            KeyCode::Enter
            | KeyCode::Tab
            | KeyCode::BackTab
            | KeyCode::Up
            | KeyCode::Down => BrowseModel {
                filter: FilterModel {
                    focused: false,
                    active: self.filter.active && self.filter.input.value.len() > 0,
                    ..self.filter
                },
                ..self
            },
            _ => if self.filter.input.edits(key) {
                BrowseModel {
                    filter: FilterModel { input: self.filter.input.typed(key), ..self.filter },
                    ..self
                }.apply_filter()
            } else {
                self
            },
        };
        BrowseModel {
            filter: FilterModel { input: s.filter.input.with_focus(s.filter.focused), ..s.filter },
            ..s
        }
    }

    pub open spec fn add_search_key(self, key: KeyEvent) -> BrowseModel {
        let s = match key.code {
            KeyCode::Enter => BrowseModel {
                add: AddModel { search_focused: false, ..self.add },
                ..self
            }.fetch_lookup(
                self.add.search.value,
            ),
            KeyCode::Esc
            | KeyCode::Tab
            | KeyCode::BackTab
            | KeyCode::Up
            | KeyCode::Down => BrowseModel {
                add: AddModel { search_focused: false, ..self.add },
                ..self
            },
            _ => BrowseModel {
                add: AddModel { search: self.add.search.typed(key), ..self.add },
                ..self
            },
        };
        BrowseModel {
            add: AddModel { search: s.add.search.with_focus(s.add.search_focused), ..s.add },
            ..s
        }
    }

    pub open spec fn wizard_key(self, code: KeyCode) -> BrowseModel {
        let flow = self.add.flow->0;
        match code {
            KeyCode::Up | KeyCode::Char('k') => BrowseModel {
                add: AddModel {
                    flow: Some(AddFlow { cursor: raised(flow.cursor, 1), ..flow }),
                    ..self.add
                },
                ..self
            },
            KeyCode::Down | KeyCode::Char('j') => BrowseModel { add: AddModel { flow: Some(
                    AddFlow { cursor: menu_down(flow.cursor, self.add_step_options()), ..flow },
                ), ..self.add }, ..self },
            KeyCode::Enter => self.advance_add_flow(),
            KeyCode::Esc | KeyCode::Char('q') => BrowseModel {
                add: AddModel { flow: None, ..self.add },
                ..self
            },
            _ => self,
        }
    }

    pub open spec fn downloads_prompt_key(self, code: KeyCode) -> BrowseModel {
        let s = BrowseModel { downloads: self.downloads.after_prompt_key(code), ..self };
        match self.downloads.prompt_action(code) {
            ActionModel::Commit { ids, remove_from_client, blocklist } => s.spawn_command(
                CommandKind::DeleteQueue,
                CallModel::DeleteQueueItems { ids, remove_from_client, blocklist },
            ),
            _ => s,
        }
    }

    pub open spec fn confirm_key(self, code: KeyCode) -> BrowseModel {
        let closed = BrowseModel { popups: PopupsModel { confirm: None, ..self.popups }, ..self };
        match code {
            KeyCode::Char('y') | KeyCode::Char('Y') | KeyCode::Enter => closed.execute_confirm(
                self.popups.confirm->0,
            ),
            KeyCode::Char('n')
            | KeyCode::Char('N')
            | KeyCode::Esc
            | KeyCode::Char('q') => closed,
            _ => self,
        }
    }

    pub open spec fn delete_prompt_key(self, code: KeyCode) -> BrowseModel {
        let prompt = self.popups.delete_prompt->0;
        let closed = BrowseModel {
            popups: PopupsModel { delete_prompt: None, ..self.popups },
            ..self
        };
        match prompt.key_action(code) {
            DeleteAction::Commit { id, delete_files, add_exclusion } => closed.spawn_command(
                CommandKind::DeleteMovie(id),
                CallModel::DeleteMovie { id, delete_files, add_exclusion },
            ),
            DeleteAction::Cancelled => closed,
            DeleteAction::Consumed => BrowseModel {
                popups: PopupsModel { delete_prompt: Some(prompt.after_key(code)), ..self.popups },
                ..self
            },
        }
    }

    pub open spec fn sort_menu_key(self, code: KeyCode) -> BrowseModel {
        let selected = self.popups.sort_menu->0;
        let closed = BrowseModel { popups: PopupsModel { sort_menu: None, ..self.popups }, ..self };
        match code {
            KeyCode::Up | KeyCode::Char('k') => BrowseModel {
                popups: PopupsModel { sort_menu: Some(raised(selected, 1)), ..self.popups },
                ..self
            },
            KeyCode::Down | KeyCode::Char('j') => BrowseModel {
                popups: PopupsModel {
                    sort_menu: Some(menu_down(selected, self.sort.count as int)),
                    ..self.popups
                },
                ..self
            },
            KeyCode::Enter => {
                let sort = if selected < self.sort.count {
                    selected
                } else {
                    0
                };
                if sort != self.sort.current {
                    BrowseModel {
                        sort: Sorting { current: sort, ..closed.sort },
                        lists: ListsModel { movie_cursor: 0, ..closed.lists },
                        ..closed
                    }.apply_filter().sent(
                        RequestModel::Sort { sort },
                    )
                } else {
                    closed
                }
            },
            KeyCode::Esc | KeyCode::Char('q') | KeyCode::Char('s') => closed,
            _ => self,
        }
    }

    pub open spec fn search_menu_key(self, code: KeyCode) -> BrowseModel {
        let selected = self.popups.search_menu->0;
        let closed = BrowseModel {
            popups: PopupsModel { search_menu: None, ..self.popups },
            ..self
        };
        match code {
            KeyCode::Up | KeyCode::Char('k') => BrowseModel {
                popups: PopupsModel { search_menu: Some(raised(selected, 1)), ..self.popups },
                ..self
            },
            KeyCode::Down | KeyCode::Char('j') => BrowseModel {
                popups: PopupsModel { search_menu: Some(menu_down(selected, 3)), ..self.popups },
                ..self
            },
            KeyCode::Enter => closed.search_menu_choice(selected),
            KeyCode::Esc | KeyCode::Char('q') => closed,
            _ => self,
        }
    }

    /// How many reasons the highlighted release was rejected for.
    pub open spec fn rejection_count(self) -> int {
        match self.selected_release() {
            Some(release) => release.rejections@.len() as int,
            None => 0,
        }
    }

    pub open spec fn rejections_key(self, code: KeyCode) -> BrowseModel {
        let selected = self.popups.rejections->0;
        match code {
            KeyCode::Up | KeyCode::Char('k') => BrowseModel {
                popups: PopupsModel { rejections: Some(raised(selected, 1)), ..self.popups },
                ..self
            },
            KeyCode::Down | KeyCode::Char('j') => BrowseModel {
                popups: PopupsModel {
                    rejections: Some(menu_down(selected, self.rejection_count())),
                    ..self.popups
                },
                ..self
            },
            KeyCode::Esc
            | KeyCode::Enter
            | KeyCode::Char('q')
            | KeyCode::Char('x') => BrowseModel {
                popups: PopupsModel { rejections: None, ..self.popups },
                ..self
            },
            _ => self,
        }
    }

    /// The rows of a full-screen page.
    pub open spec fn overview_page(self) -> usize {
        if self.status.last_height > 5 {
            (self.status.last_height - 4) as usize
        } else {
            1
        }
    }

    /// The overview scrolled down; drawing takes back what is too far.
    pub open spec fn scrolled(self, by: usize) -> BrowseModel {
        BrowseModel { overview: Overview { scroll: if self.overview.scroll + by > usize::MAX {
                usize::MAX
            } else {
                (self.overview.scroll + by) as usize
            }, ..self.overview }, ..self }
    }

    pub open spec fn overview_key(self, code: KeyCode) -> BrowseModel {
        let page = self.overview_page();
        match code {
            KeyCode::Up | KeyCode::Char('k') => BrowseModel {
                overview: Overview { scroll: raised(self.overview.scroll, 1), ..self.overview },
                ..self
            },
            KeyCode::Down | KeyCode::Char('j') => self.scrolled(1),
            KeyCode::PageUp | KeyCode::Char('b') | KeyCode::Char('u') => BrowseModel {
                overview: Overview {
                    scroll: raised(self.overview.scroll, page as int),
                    ..self.overview
                },
                ..self
            },
            KeyCode::PageDown | KeyCode::Char('f') | KeyCode::Char('d') => self.scrolled(page),
            KeyCode::Home | KeyCode::Char('g') => BrowseModel {
                overview: Overview { scroll: 0, ..self.overview },
                ..self
            },
            KeyCode::Esc | KeyCode::Backspace | KeyCode::Char('v') => BrowseModel {
                overview: Overview { fullscreen: false, scroll: 0, ..self.overview },
                ..self
            },
            _ => self,
        }
    }

    /// `esc` at the list clears an active filter; everywhere else it goes back.
    pub open spec fn back_key(self, code: KeyCode) -> BrowseModel {
        if self.level is MovieList && self.filter.active && code == KeyCode::Esc {
            BrowseModel {
                filter: FilterModel {
                    input: self.filter.input.cleared(),
                    active: false,
                    ..self.filter
                },
                ..self
            }.apply_filter()
        } else {
            self.pop_level()
        }
    }

    pub open spec fn x_key(self) -> BrowseModel {
        match self.level {
            Level::MovieDetail { movie } => match movie.movie_file {
                Some(file) => BrowseModel {
                    popups: PopupsModel {
                        confirm: Some(Confirm::DeleteFile { file_id: file.id }),
                        ..self.popups
                    },
                    ..self
                },
                None => self,
            },
            Level::Search { .. } => if self.has_rejections() {
                BrowseModel { popups: PopupsModel { rejections: Some(0), ..self.popups }, ..self }
            } else {
                self
            },
            Level::Downloads => BrowseModel {
                downloads: self.downloads.deleting(queue_ids(self.lists.queue)),
                ..self
            },
            _ => self,
        }
    }

    pub open spec fn z_key(self) -> BrowseModel {
        match self.level {
            Level::MovieDetail { movie } => BrowseModel { popups: PopupsModel { delete_prompt: Some(
                    DeletePromptModel::opened(
                        movie.id,
                        match movie.title {
                            Some(title) => title@,
                            None => "this movie"@,
                        },
                    ),
                ), ..self.popups }, ..self },
            _ => self,
        }
    }

    /// A key with no popup, field or prompt in the way.
    pub open spec fn level_key(self, code: KeyCode) -> BrowseModel {
        match code {
            KeyCode::Up | KeyCode::Char('k') => self.move_cursor(Step::Up),
            KeyCode::Down | KeyCode::Char('j') => self.move_cursor(Step::Down),
            KeyCode::Char('d') => if self.level is MovieList {
                BrowseModel {
                    level: Level::Downloads,
                    downloads: DownloadsModel::initial(),
                    ..self
                }.fetch_queue()
            } else {
                self.move_cursor(Step::PageDown)
            },
            KeyCode::PageUp | KeyCode::Char('b') | KeyCode::Char('u') => self.move_cursor(
                Step::PageUp,
            ),
            KeyCode::PageDown | KeyCode::Char('f') => self.move_cursor(Step::PageDown),
            KeyCode::Home | KeyCode::Char('g') => self.move_cursor(Step::Home),
            KeyCode::End | KeyCode::Char('G') => self.move_cursor(Step::End),
            KeyCode::Char('/') => match self.level {
                Level::MovieList => BrowseModel {
                    filter: FilterModel {
                        active: true,
                        focused: true,
                        input: self.filter.input.with_focus(true),
                        ..self.filter
                    },
                    ..self
                },
                Level::Add => BrowseModel {
                    add: AddModel {
                        search_focused: true,
                        search: self.add.search.with_focus(true),
                        cursor: 0,
                        ..self.add
                    },
                    ..self
                },
                _ => self,
            },
            KeyCode::Char('a') => if self.level is MovieList {
                self.enter_add()
            } else {
                self
            },
            KeyCode::Esc | KeyCode::Backspace => self.back_key(code),
            KeyCode::Enter => self.open_selected(),
            KeyCode::Char(' ') => if self.level is Downloads {
                BrowseModel {
                    downloads: self.downloads.toggled(queue_ids(self.lists.queue)),
                    ..self
                }
            } else {
                self.open_selected()
            },
            KeyCode::Char('s') => if self.level is MovieList {
                BrowseModel { popups: PopupsModel { sort_menu: Some(
                        if self.sort.current < self.sort.count {
                            self.sort.current
                        } else {
                            0
                        },
                    ), ..self.popups }, ..self }
            } else {
                self
            },
            KeyCode::Char('v') => if self.level is MovieDetail {
                BrowseModel {
                    overview: Overview { fullscreen: true, scroll: 0, ..self.overview },
                    ..self
                }
            } else {
                self
            },
            KeyCode::Char('x') => self.x_key(),
            KeyCode::Char('z') => self.z_key(),
            KeyCode::Char('r') => self.refresh(),
            KeyCode::Char('?') => BrowseModel {
                status: StatusModel { show_full_help: !self.status.show_full_help, ..self.status },
                ..self
            },
            _ => self,
        }
    }

    /// Whether a field, wizard, prompt or popup takes every key.
    pub open spec fn is_modal(self) -> bool {
        ||| self.filter.focused
        ||| self.add.search_focused
        ||| self.add.flow is Some
        ||| self.downloads.prompt is Some
        ||| self.popups.confirm is Some
        ||| self.popups.delete_prompt is Some
        ||| self.popups.sort_menu is Some
        ||| self.popups.search_menu is Some
        ||| self.popups.rejections is Some
    }

    /// The screen after a key.
    pub open spec fn after_key(self, key: KeyEvent) -> BrowseModel {
        if self.filter.focused {
            self.filter_key(key)
        } else if self.add.search_focused {
            self.add_search_key(key)
        } else if key.is_modified_char() {
            self
        } else if self.add.flow is Some {
            self.wizard_key(key.code)
        } else if self.downloads.prompt is Some {
            self.downloads_prompt_key(key.code)
        } else if self.popups.confirm is Some {
            self.confirm_key(key.code)
        } else if self.popups.delete_prompt is Some {
            self.delete_prompt_key(key.code)
        } else if self.popups.sort_menu is Some {
            self.sort_menu_key(key.code)
        } else if self.popups.search_menu is Some {
            self.search_menu_key(key.code)
        } else if self.popups.rejections is Some {
            self.rejections_key(key.code)
        } else if self.overview.fullscreen {
            self.overview_key(key.code)
        } else {
            self.level_key(key.code)
        }
    }

    /// Whether a key quits: a plain `q` that nothing modal takes.
    pub open spec fn quits(self, key: KeyEvent) -> bool {
        key.code == KeyCode::Char('q') && !key.is_modified_char() && !self.is_modal()
    }

    // Ticks.

    pub open spec fn tick_monitors(self) -> BrowseModel {
        let ticks = ticked(self.monitors, new_counts(self.lists.queue, self.monitors));
        let s = BrowseModel { monitors: kept(ticks, ticks.len()), ..self };
        let q = if wants_queue(ticks) {
            s.fetch_queue()
        } else {
            s
        };
        BrowseModel { outbox: q.outbox + poll_requests(polls(ticks)), ..q }
    }

    pub open spec fn after_tick(self) -> BrowseModel {
        let count = if self.status.tick_count == u32::MAX {
            0
        } else {
            (self.status.tick_count + 1) as u32
        };
        let s = BrowseModel { status: StatusModel { spinner_frame: if self.status.loading {
                ((self.status.spinner_frame + 1) % SPINNER_FRAMES as int) as usize
            } else {
                self.status.spinner_frame
            }, tick_count: count, ..self.status }, ..self };
        let q = if count as int % QUEUE_POLL_TICKS as int == 0 {
            s.fetch_queue()
        } else {
            s
        };
        q.tick_monitors()
    }

    // Answers.

    /// The level with its movie replaced by the list's copy.
    pub open spec fn level_synced(self, list: Seq<Arc<Movie>>) -> Level {
        match self.level {
            Level::MovieDetail { movie } => match movie_with_id(list, movie.id) {
                Some(updated) => Level::MovieDetail { movie: updated },
                None => self.level,
            },
            Level::Search { movie } => match movie_with_id(list, movie.id) {
                Some(updated) => Level::Search { movie: updated },
                None => self.level,
            },
            _ => self.level,
        }
    }

    pub open spec fn after_movies(
        self,
        fetch_gen: u64,
        result: Result<Seq<Arc<Movie>>, Error>,
    ) -> BrowseModel {
        if fetch_gen != self.gens.fetch || self.level is Add {
            self
        } else {
            let s = self.idle();
            match result {
                Ok(list) => BrowseModel {
                    level: self.level_synced(list),
                    lists: ListsModel { all_movies: list, ..s.lists },
                    ..s
                }.apply_filter().sent(RequestModel::Sort { sort: s.sort.current }),
                Err(err) => if err is Unauthorized {
                    s
                } else {
                    s.failed(err)
                },
            }
        }
    }

    /// The list in another order. Positions that do not name each entry of it
    /// once are refused: sorting loses nothing and brings nothing in.
    pub open spec fn sorted(self, order: Seq<usize>) -> BrowseModel {
        if is_order(order, self.lists.all_movies.len()) {
            BrowseModel {
                lists: ListsModel {
                    all_movies: reordered(self.lists.all_movies, order),
                    ..self.lists
                },
                ..self
            }.apply_filter()
        } else {
            self
        }
    }

    pub open spec fn after_queue(
        self,
        queue_gen: u64,
        result: Result<Seq<QueueItem>, Error>,
    ) -> BrowseModel {
        if queue_gen != self.gens.queue {
            self
        } else {
            let s = BrowseModel {
                status: StatusModel { queue_loading: false, ..self.status },
                ..self
            };
            match result {
                Ok(queue) => BrowseModel {
                    downloads: self.downloads.pruned(queue_ids(queue)),
                    lists: ListsModel { queue, ..s.lists },
                    ..s
                },
                Err(_) => s,
            }
        }
    }

    pub open spec fn after_releases(
        self,
        fetch_gen: u64,
        result: Result<Seq<Release>, Error>,
    ) -> BrowseModel {
        if fetch_gen != self.gens.fetch {
            self
        } else {
            let s = self.idle();
            match result {
                Ok(releases) => BrowseModel {
                    lists: ListsModel { releases, release_cursor: 0, ..s.lists },
                    ..s
                },
                Err(err) => if err is Unauthorized {
                    s
                } else {
                    s.failed(err)
                },
            }
        }
    }

    pub open spec fn after_history(
        self,
        fetch_gen: u64,
        result: Result<Seq<HistoryRecord>, Error>,
    ) -> BrowseModel {
        if fetch_gen != self.gens.fetch {
            self
        } else {
            match result {
                Ok(history) => BrowseModel { lists: ListsModel { history, ..self.lists }, ..self },
                Err(_) => self,
            }
        }
    }

    /// The level left if it shows the movie that was deleted.
    pub open spec fn leave_deleted(self, deleted_id: i64) -> BrowseModel {
        match self.level {
            Level::MovieDetail { movie } | Level::Search { movie } => if movie.id == deleted_id {
                BrowseModel { level: Level::MovieList, ..self }
            } else {
                self
            },
            _ => self,
        }
    }

    pub open spec fn after_success(self, kind: CommandKind) -> BrowseModel {
        match kind {
            CommandKind::AutoSearch => self.noticed(
                "search started; grabbed downloads appear in the queue",
            ).fetch_queue(),
            CommandKind::Grab => self.pop_to_detail().noticed(
                "release sent to the download client",
            ),
            CommandKind::DeleteFile => self.fetch_movies().fetch_queue().noticed(
                "movie file deleted",
            ),
            CommandKind::DeleteMovie(deleted_id) => self.leave_deleted(
                deleted_id,
            ).fetch_movies().fetch_queue().noticed("movie deleted"),
            CommandKind::DeleteQueue => BrowseModel {
                downloads: DownloadsModel { marks: Set::empty(), ..self.downloads },
                ..self
            }.fetch_queue().noticed("removed from queue"),
        }
    }

    pub open spec fn after_command(
        self,
        fetch_gen: u64,
        kind: CommandKind,
        result: Result<(), Error>,
    ) -> BrowseModel {
        if fetch_gen != self.gens.fetch || rejected(result) {
            self
        } else {
            let s = self.idle();
            match result {
                Ok(_) => s.after_success(kind),
                Err(err) => s.failed(err),
            }
        }
    }

    pub open spec fn after_lookup(
        self,
        add_lookup_gen: u64,
        result: Result<Seq<LookupEntry>, Error>,
    ) -> BrowseModel {
        if add_lookup_gen != self.gens.add_lookup {
            self
        } else {
            let s = self.idle();
            match result {
                Ok(entries) => BrowseModel {
                    add: AddModel {
                        results: entry_movies(entries),
                        raw: entry_objects(entries),
                        cursor: 0,
                        ..s.add
                    },
                    ..s
                },
                Err(err) => if err is Unauthorized {
                    s
                } else {
                    s.failed(err)
                },
            }
        }
    }

    pub open spec fn after_add_options(
        self,
        prereq_gen: u64,
        result: Result<(Seq<RootFolder>, Seq<QualityProfile>), Error>,
    ) -> BrowseModel {
        if prereq_gen != self.gens.add_prereq {
            self
        } else {
            match result {
                Ok((root_folders, quality_profiles)) => BrowseModel {
                    add: AddModel { root_folders, quality_profiles, ..self.add },
                    ..self
                },
                Err(_) => self,
            }
        }
    }

    /// The created movie opened, with the library refetched so that it is
    /// present when the user pops back.
    pub open spec fn opened_added(self, movie: Arc<Movie>) -> BrowseModel {
        BrowseModel {
            level: Level::MovieDetail { movie },
            overview: Overview { scroll: 0, ..self.overview },
            add: AddModel {
                results: Seq::empty(),
                raw: Seq::empty(),
                search: self.add.search.cleared(),
                search_focused: false,
                ..self.add
            },
            ..self
        }.fetch_movies().fetch_queue().noticed("movie added")
    }

    /// The screen about to be drawn at a height.
    pub open spec fn measured(self, height: u16) -> BrowseModel {
        BrowseModel {
            status: StatusModel { last_height: height, ..self.status },
            downloads: self.downloads.clamped(self.lists.queue.len()),
            ..self
        }
    }

    pub open spec fn after_added(
        self,
        add_gen: u64,
        result: Result<Arc<Movie>, Error>,
    ) -> BrowseModel {
        if add_gen != self.gens.add {
            self
        } else {
            let s = BrowseModel { add: AddModel { submitting: false, ..self.add }, ..self };
            match result {
                Ok(movie) => {
                    let t = BrowseModel {
                        status: StatusModel { loading: false, ..s.status },
                        add: AddModel { pending_search: false, ..s.add },
                        ..s
                    };
                    let u = if self.add.pending_search {
                        t.start_auto_search(movie.id, label_text(*movie))
                    } else {
                        t
                    };
                    u.opened_added(movie)
                },
                Err(err) => if err is Unauthorized {
                    s
                } else {
                    BrowseModel {
                        status: StatusModel { loading: false, error: Some(err.text()), ..s.status },
                        add: AddModel { pending_search: false, ..s.add },
                        ..s
                    }
                },
            }
        }
    }

    /// A tracked command was created, or failed to start.
    pub open spec fn after_search_started(
        self,
        generation: u64,
        result: Result<Command, Error>,
    ) -> BrowseModel {
        BrowseModel { monitors: with_started(self.monitors, generation, result), ..self }
    }

    /// A status poll landed; the queue is refreshed when the command completed.
    pub open spec fn after_search_polled(
        self,
        generation: u64,
        result: Result<Command, Error>,
    ) -> BrowseModel {
        let s = BrowseModel { monitors: with_polled(self.monitors, generation, result), ..self };
        if poll_completes(self.monitors, generation, result) {
            s.fetch_queue()
        } else {
            s
        }
    }
}

} // verus!
