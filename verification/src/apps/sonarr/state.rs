//! The Sonarr browse screen as a mathematical state: what it holds, and what
//! each key, tick and answer turns it into.

use serde_json::Value;
use std::sync::Arc;
use vstd::prelude::*;

use crate::app::{next_gen, KeyCode, KeyEvent};
use crate::apps::auto_search::{
    kept, poll_completes, polls, ticked, wants_queue, with_polled, with_started, MonitorModel,
};
use crate::apps::delete_prompt::{DeleteAction, DeletePromptModel};
use crate::apps::downloads::{queue_ids, ActionModel, DownloadsModel};
use crate::apps::sonarr::browse::{
    label_text, type_place, Confirm, FormMode, Gens, Level, LookupEntry, PendingEdit, SearchMenu,
    Sorting, MONITORED, MOVE_FILES, QUALITY, QUEUE_BACKOFF_MAX_SHIFT, QUEUE_POLL_MAX_TICKS,
    QUEUE_POLL_TICKS, ROOT, SEARCH, SEASON_FOLDER, SERIES_TYPE, SERIES_TYPE_FIELD, SPINNER_FRAMES,
};
use crate::apps::sonarr::msg::{CallModel, CommandKind, RequestModel};
use crate::arr::models::{Command, HistoryRecord, QualityProfile, QueueItem, Release, RootFolder};
use crate::arr::Error;
use crate::json::{json_bool, json_int, json_object_of, json_text, json_with_member};
use crate::sonarr::{Episode, Season, Series};
use crate::text::{blank, lowercase, occurs, opt_text, trimmed};
use crate::ui::form::{FieldModel, FormEvent, FormModel};
use crate::ui::input::TextModel;
use crate::ui::list::{is_order, menu_down, raised, reordered, stepped, Step};

verus! {

/// The lists as values.
pub struct ListsModel {
    pub all_series: Seq<Arc<Series>>,
    pub filtered: Seq<usize>,
    pub series_cursor: usize,
    pub season_cursor: usize,
    pub episodes: Seq<Arc<Episode>>,
    pub episode_cursor: usize,
    pub releases: Seq<Release>,
    pub release_cursor: usize,
    pub queue: Seq<QueueItem>,
    pub history: Seq<HistoryRecord>,
}

/// The title filter as values.
pub struct FilterModel {
    pub input: TextModel,
    pub active: bool,
    pub focused: bool,
}

/// The popups as values.
pub struct PopupsModel {
    pub sort_menu: Option<usize>,
    pub search_menu: Option<SearchMenu>,
    pub confirm: Option<Confirm>,
    pub delete_prompt: Option<DeletePromptModel>,
    pub rejections: Option<usize>,
}

/// An open form as values.
pub struct ActiveModel {
    pub form: FormModel,
    pub mode: FormMode,
    pub title: Seq<char>,
}

/// The add screen and the forms as values.
pub struct AddModel {
    pub search: TextModel,
    pub search_focused: bool,
    pub results: Seq<Arc<Series>>,
    pub raw: Seq<Value>,
    pub cursor: usize,
    pub root_folders: Seq<RootFolder>,
    pub quality_profiles: Seq<QualityProfile>,
    pub submitting: bool,
    pub form: Option<ActiveModel>,
    pub pending_edit: Option<PendingEdit>,
    pub pending_search: bool,
}

/// The chrome as values.
pub struct StatusModel {
    pub loading: bool,
    pub queue_loading: bool,
    pub error: Option<Seq<char>>,
    pub notice: Option<&'static str>,
    pub has_fetched: bool,
    pub show_full_help: bool,
    pub tick_count: u32,
    pub spinner_frame: usize,
    pub last_height: u16,
    pub info_scroll: usize,
    pub queue_backoff: u32,
    pub last_poll_tick: u32,
    pub active: bool,
}

/// The browse screen as values.
pub struct BrowseModel {
    pub level: Level,
    pub lists: ListsModel,
    pub downloads: DownloadsModel,
    pub filter: FilterModel,
    pub sort: Sorting,
    pub popups: PopupsModel,
    pub add: AddModel,
    pub monitors: Seq<MonitorModel>,
    pub status: StatusModel,
    pub gens: Gens,
    pub outbox: Seq<RequestModel>,
}

/// A series' title, empty where it has none.
pub open spec fn title_of(series: Series) -> Seq<char> {
    match series.title {
        Some(title) => title@,
        None => Seq::empty(),
    }
}

/// Whether a series' title contains the needle, whatever the case.
pub open spec fn title_matches(series: Series, needle: Seq<char>) -> bool {
    occurs(lowercase(title_of(series)), needle)
}

/// The positions of the series whose titles contain the needle, in order.
pub open spec fn matching(all: Seq<Arc<Series>>, needle: Seq<char>) -> Seq<usize>
    decreases all.len(),
{
    if all.len() == 0 {
        Seq::empty()
    } else if title_matches(*all.last(), needle) {
        matching(all.drop_last(), needle).push((all.len() - 1) as usize)
    } else {
        matching(all.drop_last(), needle)
    }
}

/// The positions that a filter leaves visible: all of them while it is off or
/// empty.
pub open spec fn visible(all: Seq<Arc<Series>>, active: bool, filter: Seq<char>) -> Seq<usize> {
    if !active || filter.len() == 0 {
        Seq::new(all.len(), |i: int| i as usize)
    } else {
        matching(all, lowercase(filter))
    }
}

/// The first series with an id.
pub open spec fn series_with_id(all: Seq<Arc<Series>>, id: i64) -> Option<Arc<Series>>
    decreases all.len(),
{
    if all.len() == 0 {
        None
    } else if all[0].id == id {
        Some(all[0])
    } else {
        series_with_id(all.drop_first(), id)
    }
}

/// The first episode with an id.
pub open spec fn episode_with_id(list: Seq<Arc<Episode>>, id: i64) -> Option<Arc<Episode>>
    decreases list.len(),
{
    if list.len() == 0 {
        None
    } else if list[0].id == id {
        Some(list[0])
    } else {
        episode_with_id(list.drop_first(), id)
    }
}

/// An episode put into a list in order: behind the last one that it does not
/// come before.
pub open spec fn placed(list: Seq<Arc<Episode>>, episode: Arc<Episode>) -> Seq<Arc<Episode>>
    decreases list.len(),
{
    if list.len() == 0 || list.last().episode_number <= episode.episode_number {
        list.push(episode)
    } else {
        placed(list.drop_last(), episode).push(list.last())
    }
}

/// Episodes by number; those of one number stay in the order they came.
pub open spec fn in_order(list: Seq<Arc<Episode>>) -> Seq<Arc<Episode>>
    decreases list.len(),
{
    if list.len() == 0 {
        Seq::empty()
    } else {
        placed(in_order(list.drop_last()), list.last())
    }
}

/// The ids of the queue items that belong to a series.
pub open spec fn queued_for(queue: Seq<QueueItem>, series_id: i64) -> Set<i64>
    decreases queue.len(),
{
    if queue.len() == 0 {
        Set::empty()
    } else {
        let before = queued_for(queue.drop_last(), series_id);
        if queue.last().series_id == Some(series_id) {
            before.insert(queue.last().id)
        } else {
            before
        }
    }
}

/// Whether a queue item counts as a result of a monitored search.
pub open spec fn is_new_item(item: QueueItem, monitor: MonitorModel) -> bool {
    item.series_id == Some(monitor.target_id) && !monitor.baseline.contains(item.id)
}

/// How many queue items a monitored search has brought.
pub open spec fn new_items(queue: Seq<QueueItem>, monitor: MonitorModel) -> nat
    decreases queue.len(),
{
    if queue.len() == 0 {
        0
    } else {
        new_items(queue.drop_last(), monitor) + if is_new_item(queue.last(), monitor) {
            1nat
        } else {
            0nat
        }
    }
}

/// How many queue items each monitored search has brought.
pub open spec fn new_counts(queue: Seq<QueueItem>, monitors: Seq<MonitorModel>) -> Seq<usize> {
    monitors.map_values(|m: MonitorModel| new_items(queue, m) as usize)
}

/// Polls as requests.
pub open spec fn poll_requests(list: Seq<(u64, i64)>) -> Seq<RequestModel> {
    list.map_values(
        |p: (u64, i64)| RequestModel::PollCommand { generation: p.0, command_id: p.1 },
    )
}

/// The readable entries of a lookup, in order.
pub open spec fn readable(entries: Seq<LookupEntry>) -> Seq<LookupEntry>
    decreases entries.len(),
{
    if entries.len() == 0 {
        Seq::empty()
    } else if entries.last().series is Some {
        readable(entries.drop_last()).push(entries.last())
    } else {
        readable(entries.drop_last())
    }
}

/// The series of readable entries.
pub open spec fn entry_series(entries: Seq<LookupEntry>) -> Seq<Arc<Series>> {
    readable(entries).map_values(|e: LookupEntry| e.series->0)
}

/// The objects of readable entries.
pub open spec fn entry_objects(entries: Seq<LookupEntry>) -> Seq<Value> {
    readable(entries).map_values(|e: LookupEntry| e.raw)
}

/// The options that go with an add: which episodes to watch for, and that the
/// server is not to run a search of its own, since the search is run and
/// tracked separately.
pub open spec fn add_options(monitored: bool) -> Value {
    json_with_member(
        json_object_of("searchForMissingEpisodes"@, json_bool(false)),
        "monitor"@,
        json_text(
            if monitored {
                "all"@
            } else {
                "none"@
            },
        ),
    )
}

/// The object that adds a series: the lookup object with the user's choices
/// set on it.
pub open spec fn add_body(
    raw: Value,
    quality_profile_id: i64,
    root_folder: Seq<char>,
    monitored: bool,
    season_folder: bool,
    series_type: Seq<char>,
) -> Value {
    let a = json_with_member(raw, "qualityProfileId"@, json_int(quality_profile_id as int));
    let b = json_with_member(a, "rootFolderPath"@, json_text(root_folder));
    let c = json_with_member(b, "monitored"@, json_bool(monitored));
    let d = json_with_member(c, "seasonFolder"@, json_bool(season_folder));
    let e = json_with_member(d, "seriesType"@, json_text(series_type));
    json_with_member(e, "addOptions"@, add_options(monitored))
}

/// The API value of a series type option, if it is one.
pub open spec fn series_type_value(index: usize) -> Option<&'static str> {
    if index < 3 {
        Some(SERIES_TYPE@[index as int].1)
    } else {
        None
    }
}

/// The labels of the series types.
pub open spec fn type_labels() -> Seq<Seq<char>> {
    seq!["Standard"@, "Daily"@, "Anime"@]
}

/// The names of quality profiles.
pub open spec fn profile_names(profiles: Seq<QualityProfile>) -> Seq<Seq<char>> {
    profiles.map_values(|p: QualityProfile| p.name@)
}

/// The position of the first profile with an id.
pub open spec fn profile_at(profiles: Seq<QualityProfile>, id: i64) -> Option<int>
    decreases profiles.len(),
{
    if profiles.len() == 0 {
        None
    } else {
        match profile_at(profiles.drop_last(), id) {
            Some(i) => Some(i),
            None => if profiles.last().id == id {
                Some(profiles.len() - 1)
            } else {
                None
            },
        }
    }
}

/// The id of a profile at a position, if there is one.
pub open spec fn profile_id(profiles: Seq<QualityProfile>, index: usize) -> Option<i64> {
    if index < profiles.len() {
        Some(profiles[index as int].id)
    } else {
        None
    }
}

/// A list in place of what a request was answered with.
pub open spec fn listed<T>(result: Result<Vec<T>, Error>) -> Result<Seq<T>, Error> {
    match result {
        Ok(list) => Ok(list@),
        Err(err) => Err(err),
    }
}

/// The forms' pickers in place of what a request was answered with.
pub open spec fn options(
    result: Result<(Vec<RootFolder>, Vec<QualityProfile>), Error>,
) -> Result<(Seq<RootFolder>, Seq<QualityProfile>), Error> {
    match result {
        Ok((folders, profiles)) => Ok((folders@, profiles@)),
        Err(err) => Err(err),
    }
}

/// Whether an answer says that the key was rejected.
pub open spec fn rejected<T>(result: Result<T, Error>) -> bool {
    result matches Err(err) && err is Unauthorized
}

/// The interval between queue polls, in ticks: doubled for each failed poll up
/// to the cap.
pub open spec fn poll_interval(backoff: u32) -> u32 {
    if backoff >= QUEUE_BACKOFF_MAX_SHIFT {
        QUEUE_POLL_MAX_TICKS
    } else if backoff == 2 {
        160
    } else if backoff == 1 {
        80
    } else {
        QUEUE_POLL_TICKS
    }
}

/// The ticks from one count to another, over the end of the counter.
pub open spec fn ticks_since(now: u32, then: u32) -> u32 {
    if now >= then {
        (now - then) as u32
    } else {
        (now - then + u32::MAX + 1) as u32
    }
}

impl BrowseModel {
    /// A screen before its first fetch.
    pub open spec fn initial(gen_counter: u64, sort_count: usize) -> BrowseModel {
        BrowseModel {
            level: Level::SeriesList,
            lists: ListsModel {
                all_series: Seq::empty(),
                filtered: Seq::empty(),
                series_cursor: 0,
                season_cursor: 0,
                episodes: Seq::empty(),
                episode_cursor: 0,
                releases: Seq::empty(),
                release_cursor: 0,
                queue: Seq::empty(),
                history: Seq::empty(),
            },
            downloads: DownloadsModel::initial(),
            filter: FilterModel { input: TextModel::empty(), active: false, focused: false },
            sort: Sorting { current: 0, count: sort_count },
            popups: PopupsModel {
                sort_menu: None,
                search_menu: None,
                confirm: None,
                delete_prompt: None,
                rejections: None,
            },
            add: AddModel {
                search: TextModel::empty(),
                search_focused: false,
                results: Seq::empty(),
                raw: Seq::empty(),
                cursor: 0,
                root_folders: Seq::empty(),
                quality_profiles: Seq::empty(),
                submitting: false,
                form: None,
                pending_edit: None,
                pending_search: false,
            },
            monitors: Seq::empty(),
            status: StatusModel {
                loading: false,
                queue_loading: false,
                error: None,
                notice: None,
                has_fetched: false,
                show_full_help: false,
                tick_count: 0,
                spinner_frame: 0,
                last_height: 24,
                info_scroll: 0,
                queue_backoff: 0,
                last_poll_tick: 0,
                active: true,
            },
            gens: Gens {
                counter: gen_counter,
                fetch: 0,
                queue: 0,
                add_lookup: 0,
                add_prereq: 0,
                add: 0,
            },
            outbox: Seq::empty(),
        }
    }

    /// What always holds of a screen.
    pub open spec fn wf(self) -> bool {
        &&& self.downloads.wf()
        &&& (self.popups.delete_prompt is Some ==> self.popups.delete_prompt->0.wf())
        &&& (self.add.form is Some ==> self.add.form->0.form.wf())
        &&& self.status.spinner_frame < SPINNER_FRAMES
        &&& self.status.queue_backoff <= QUEUE_BACKOFF_MAX_SHIFT
        &&& self.add.results.len() == self.add.raw.len()
        &&& self.lists.all_series.len() <= usize::MAX
        &&& self.lists.filtered == visible(
            self.lists.all_series,
            self.filter.active,
            self.filter.input.value,
        )
        &&& (self.lists.series_cursor < self.lists.filtered.len() || self.lists.series_cursor == 0)
        &&& (!self.filter.active ==> self.filter.input.value.len() == 0)
        &&& (self.filter.focused ==> self.filter.active)
    }

    /// No awaited generation lies ahead of the counter. It holds from the
    /// start and until the counter starts over.
    pub open spec fn gens_in_order(self) -> bool {
        &&& self.gens.fetch <= self.gens.counter
        &&& self.gens.queue <= self.gens.counter
        &&& self.gens.add_lookup <= self.gens.counter
        &&& self.gens.add_prereq <= self.gens.counter
        &&& self.gens.add <= self.gens.counter
    }

    pub open spec fn sent(self, request: RequestModel) -> BrowseModel {
        BrowseModel { outbox: self.outbox.push(request), ..self }
    }

    pub open spec fn at(self, level: Level) -> BrowseModel {
        BrowseModel { level, ..self }
    }

    pub open spec fn idle(self) -> BrowseModel {
        BrowseModel { status: StatusModel { loading: false, ..self.status }, ..self }
    }

    pub open spec fn noticed(self, notice: &'static str) -> BrowseModel {
        BrowseModel { status: StatusModel { notice: Some(notice), ..self.status }, ..self }
    }

    pub open spec fn failed(self, err: Error) -> BrowseModel {
        BrowseModel { status: StatusModel { error: Some(err.text()), ..self.status }, ..self }
    }

    pub open spec fn with_form(self, form: Option<ActiveModel>) -> BrowseModel {
        BrowseModel { add: AddModel { form, ..self.add }, ..self }
    }

    // Requests.

    /// A list fetch started under a generation of its own; any result carrying
    /// an older generation is stale. The connect-time notice has been seen once
    /// the user navigates.
    pub open spec fn begin_fetch(self) -> BrowseModel {
        let gen = next_gen(self.gens.counter);
        BrowseModel {
            status: StatusModel {
                loading: true,
                error: None,
                notice: if self.status.has_fetched {
                    None
                } else {
                    self.status.notice
                },
                has_fetched: true,
                ..self.status
            },
            gens: Gens { counter: gen, fetch: gen, ..self.gens },
            ..self
        }
    }

    pub open spec fn fetch_series(self) -> BrowseModel {
        let s = self.begin_fetch();
        s.sent(RequestModel::Series { fetch_gen: s.gens.fetch })
    }

    pub open spec fn fetch_episodes(self, series_id: i64, season_number: i32) -> BrowseModel {
        let s = self.begin_fetch();
        s.sent(RequestModel::Episodes { fetch_gen: s.gens.fetch, series_id, season_number })
    }

    /// One queue poll, unless another is in flight.
    pub open spec fn fetch_queue(self) -> BrowseModel {
        if self.status.queue_loading {
            self
        } else {
            let gen = next_gen(self.gens.counter);
            BrowseModel {
                status: StatusModel { queue_loading: true, ..self.status },
                gens: Gens { counter: gen, queue: gen, ..self.gens },
                ..self
            }.sent(RequestModel::Queue { queue_gen: gen })
        }
    }

    /// Releases and the episode's history fetched under one generation.
    pub open spec fn fetch_releases(self, episode_id: i64) -> BrowseModel {
        let s = self.begin_fetch();
        BrowseModel {
            lists: ListsModel {
                releases: Seq::empty(),
                history: Seq::empty(),
                release_cursor: 0,
                ..s.lists
            },
            ..s
        }.sent(RequestModel::Releases { fetch_gen: s.gens.fetch, episode_id }).sent(
            RequestModel::History { fetch_gen: s.gens.fetch, episode_id },
        )
    }

    /// A mutation under the current view generation.
    pub open spec fn spawn_command(self, kind: CommandKind, call: CallModel) -> BrowseModel {
        BrowseModel { status: StatusModel { loading: true, ..self.status }, ..self }.sent(
            RequestModel::Command { fetch_gen: self.gens.fetch, kind, call },
        )
    }

    pub open spec fn fetch_add_options(self) -> BrowseModel {
        let gen = next_gen(self.gens.counter);
        BrowseModel { gens: Gens { counter: gen, add_prereq: gen, ..self.gens }, ..self }.sent(
            RequestModel::AddOptions { prereq_gen: gen },
        )
    }

    /// A lookup for the add screen; a blank term just clears the list.
    pub open spec fn fetch_lookup(self, term: Seq<char>) -> BrowseModel {
        if blank(term) {
            BrowseModel {
                add: AddModel { results: Seq::empty(), raw: Seq::empty(), cursor: 0, ..self.add },
                ..self
            }
        } else {
            let gen = next_gen(self.gens.counter);
            BrowseModel {
                status: StatusModel { loading: true, error: None, ..self.status },
                gens: Gens { counter: gen, add_lookup: gen, ..self.gens },
                ..self
            }.sent(RequestModel::Lookup { add_lookup_gen: gen, term })
        }
    }

    /// A tracked search for a just-added series, with the downloads it already
    /// has as the baseline.
    pub open spec fn start_auto_search(self, series_id: i64, title: Seq<char>) -> BrowseModel {
        let gen = next_gen(self.gens.counter);
        let monitor = MonitorModel::starting(
            gen,
            series_id,
            title,
            queued_for(self.lists.queue, series_id),
        );
        BrowseModel {
            monitors: self.monitors.push(monitor),
            gens: Gens { counter: gen, ..self.gens },
            ..self
        }.sent(RequestModel::AutoSearch { generation: gen, series_id })
    }

    // The lists.

    pub open spec fn apply_filter(self) -> BrowseModel {
        let filtered = visible(
            self.lists.all_series,
            self.filter.active,
            self.filter.input.value,
        );
        BrowseModel {
            lists: ListsModel {
                filtered,
                series_cursor: if self.lists.series_cursor >= filtered.len() {
                    0
                } else {
                    self.lists.series_cursor
                },
                ..self.lists
            },
            ..self
        }
    }

    pub open spec fn selected_series(self) -> Option<Arc<Series>> {
        if self.lists.series_cursor < self.lists.filtered.len() {
            let index = self.lists.filtered[self.lists.series_cursor as int];
            if index < self.lists.all_series.len() {
                Some(self.lists.all_series[index as int])
            } else {
                None
            }
        } else {
            None
        }
    }

    pub open spec fn selected_episode(self) -> Option<Arc<Episode>> {
        if self.lists.episode_cursor < self.lists.episodes.len() {
            Some(self.lists.episodes[self.lists.episode_cursor as int])
        } else {
            None
        }
    }

    pub open spec fn selected_release(self) -> Option<Release> {
        if self.lists.release_cursor < self.lists.releases.len() {
            Some(self.lists.releases[self.lists.release_cursor as int])
        } else {
            None
        }
    }

    /// How many reasons the highlighted release was rejected for.
    pub open spec fn rejection_count(self) -> int {
        match self.selected_release() {
            Some(release) => release.rejections@.len() as int,
            None => 0,
        }
    }

    /// The season under the cursor of a show.
    pub open spec fn selected_season(self, series: Series) -> Option<Season> {
        if self.lists.season_cursor < series.seasons@.len() {
            Some(series.seasons@[self.lists.season_cursor as int])
        } else {
            None
        }
    }

    /// The cursor of the current level's list and the list's length; `None` on
    /// the (list-less) episode detail.
    pub open spec fn cursor_and_len(self) -> Option<(usize, usize)> {
        match self.level {
            Level::SeriesList => Some(
                (self.lists.series_cursor, self.lists.filtered.len() as usize),
            ),
            Level::Show { series } => Some(
                (self.lists.season_cursor, series.seasons@.len() as usize),
            ),
            Level::Episodes { .. } => Some(
                (self.lists.episode_cursor, self.lists.episodes.len() as usize),
            ),
            Level::EpisodeDetail { .. } => None,
            Level::Search { .. } => Some(
                (self.lists.release_cursor, self.lists.releases.len() as usize),
            ),
            Level::Add => Some((self.add.cursor, self.add.results.len() as usize)),
            Level::Downloads => Some((self.downloads.cursor, self.lists.queue.len() as usize)),
        }
    }

    pub open spec fn with_cursor(self, cursor: usize) -> BrowseModel {
        match self.level {
            Level::SeriesList => BrowseModel {
                lists: ListsModel { series_cursor: cursor, ..self.lists },
                ..self
            },
            Level::Show { .. } => BrowseModel {
                lists: ListsModel { season_cursor: cursor, ..self.lists },
                ..self
            },
            Level::Episodes { .. } => BrowseModel {
                lists: ListsModel { episode_cursor: cursor, ..self.lists },
                ..self
            },
            Level::EpisodeDetail { .. } => self,
            Level::Search { .. } => BrowseModel {
                lists: ListsModel { release_cursor: cursor, ..self.lists },
                ..self
            },
            Level::Add => BrowseModel { add: AddModel { cursor, ..self.add }, ..self },
            Level::Downloads => BrowseModel {
                downloads: DownloadsModel { cursor, ..self.downloads },
                ..self
            },
        }
    }

    /// The rows a page key jumps.
    pub open spec fn page_jump(self) -> usize {
        if self.status.last_height / 5 == 0 {
            1
        } else {
            (self.status.last_height / 5) as usize
        }
    }

    pub open spec fn move_cursor(self, step: Step) -> BrowseModel {
        match self.cursor_and_len() {
            Some((cursor, len)) => self.with_cursor(stepped(step, cursor, len, self.page_jump())),
            None => self,
        }
    }

    // Navigation.

    /// Back from a detail or search level to the episode list, with a refetch.
    pub open spec fn pop_to_episodes(self) -> BrowseModel {
        match self.level {
            Level::EpisodeDetail { series, season, .. } | Level::Search { series, season, .. } =>
                self.fetch_episodes(series.id, season.season_number).fetch_queue().at(
                Level::Episodes { series, season },
            ),
            _ => self,
        }
    }

    pub open spec fn open_series(self, series: Arc<Series>) -> BrowseModel {
        BrowseModel {
            lists: ListsModel { season_cursor: 0, ..self.lists },
            status: StatusModel { info_scroll: 0, ..self.status },
            ..self
        }.at(Level::Show { series })
    }

    pub open spec fn open_season(self, series: Arc<Series>, season: Season) -> BrowseModel {
        BrowseModel {
            lists: ListsModel { episode_cursor: 0, episodes: Seq::empty(), ..self.lists },
            ..self
        }.fetch_episodes(series.id, season.season_number).fetch_queue().at(
            Level::Episodes { series, season },
        )
    }

    pub open spec fn open_selected(self) -> BrowseModel {
        match self.level {
            Level::SeriesList => match self.selected_series() {
                Some(series) => self.open_series(series).fetch_queue(),
                None => self,
            },
            Level::Show { series } => match self.selected_season(*series) {
                Some(season) => self.open_season(series, season),
                None => self,
            },
            Level::Episodes { .. } => match self.selected_episode() {
                Some(episode) => BrowseModel {
                    popups: PopupsModel {
                        search_menu: Some(SearchMenu { cursor: 0, episode }),
                        ..self.popups
                    },
                    ..self
                },
                None => self,
            },
            Level::EpisodeDetail { .. } => self,
            Level::Search { .. } => if self.selected_release() is Some {
                BrowseModel {
                    popups: PopupsModel {
                        confirm: Some(Confirm::Grab { index: self.lists.release_cursor }),
                        ..self.popups
                    },
                    ..self
                }
            } else {
                self
            },
            Level::Add => self.start_add_flow(),
            Level::Downloads => self,
        }
    }

    /// The add screen left: its lookup and its add are superseded.
    pub open spec fn leave_add(self) -> BrowseModel {
        let lookup_gen = next_gen(self.gens.counter);
        let add_gen = next_gen(lookup_gen);
        BrowseModel {
            level: Level::SeriesList,
            add: AddModel {
                results: Seq::empty(),
                raw: Seq::empty(),
                search: self.add.search.cleared(),
                search_focused: false,
                form: None,
                submitting: false,
                ..self.add
            },
            gens: Gens { add_lookup: lookup_gen, add: add_gen, counter: add_gen, ..self.gens },
            status: StatusModel { loading: false, error: None, ..self.status },
            ..self
        }
    }

    /// The search results left: a search still under way is superseded, since
    /// it may take minutes to answer.
    pub open spec fn leave_search(self, series: Arc<Series>, season: Season) -> BrowseModel {
        let gen = next_gen(self.gens.counter);
        BrowseModel {
            level: Level::Episodes { series, season },
            lists: ListsModel { releases: Seq::empty(), history: Seq::empty(), ..self.lists },
            gens: Gens { fetch: gen, counter: gen, ..self.gens },
            status: StatusModel { loading: false, error: None, ..self.status },
            ..self
        }
    }

    /// One level up; the list itself has none above it. A form that waits for
    /// its options is given up.
    pub open spec fn pop_level(self) -> BrowseModel {
        let s = BrowseModel { add: AddModel { pending_edit: None, ..self.add }, ..self };
        match self.level {
            Level::SeriesList => s,
            Level::Downloads => BrowseModel {
                level: Level::SeriesList,
                downloads: DownloadsModel::initial(),
                ..s
            },
            Level::Show { .. } => s.at(Level::SeriesList),
            Level::Episodes { series, .. } => s.at(Level::Show { series }),
            Level::EpisodeDetail { series, season, .. } => s.at(Level::Episodes { series, season }),
            Level::Search { series, season, .. } => s.leave_search(series, season),
            Level::Add => s.leave_add(),
        }
    }

    pub open spec fn refresh(self) -> BrowseModel {
        match self.level {
            Level::Downloads => self.fetch_queue(),
            Level::SeriesList => self.fetch_series(),
            Level::Show { .. } => self.fetch_series().fetch_queue(),
            Level::Episodes { series, season } | Level::EpisodeDetail { series, season, .. } =>
                self.fetch_episodes(series.id, season.season_number).fetch_queue(),
            Level::Search { episode, .. } => self.fetch_releases(episode.id),
            Level::Add => {
                let s = self.fetch_add_options();
                if blank(self.add.search.value) {
                    s
                } else {
                    s.fetch_lookup(self.add.search.value)
                }
            },
        }
    }

    pub open spec fn execute_confirm(self, confirm: Confirm) -> BrowseModel {
        match confirm {
            Confirm::DeleteFile { file_id } => self.spawn_command(
                CommandKind::DeleteFile,
                CallModel::DeleteEpisodeFile { file_id },
            ),
            Confirm::Grab { index } => if index < self.lists.releases.len() {
                let release = self.lists.releases[index as int];
                self.spawn_command(
                    CommandKind::Grab,
                    CallModel::GrabRelease { guid: release.guid@, indexer_id: release.indexer_id },
                )
            } else {
                self
            },
        }
    }

    /// A choice of the search menu, for the episode it was opened on.
    pub open spec fn search_menu_choice(
        self,
        choice: usize,
        episode: Arc<Episode>,
    ) -> BrowseModel {
        match self.level {
            Level::Episodes { series, season } => if choice == 0 {
                self.spawn_command(
                    CommandKind::AutoSearch,
                    CallModel::EpisodeSearch { episode_id: episode.id },
                )
            } else if choice == 1 {
                self.fetch_releases(episode.id).at(Level::Search { series, season, episode })
            } else {
                self
            },
            _ => self,
        }
    }

    // Adding and editing.

    /// Whether the forms have something to offer in each of their pickers.
    pub open spec fn has_add_options(self) -> bool {
        self.add.root_folders.len() > 0 && self.add.quality_profiles.len() > 0
    }

    pub open spec fn enter_add(self) -> BrowseModel {
        let s = BrowseModel {
            level: Level::Add,
            add: AddModel {
                search: self.add.search.cleared().with_focus(true),
                search_focused: true,
                results: Seq::empty(),
                raw: Seq::empty(),
                cursor: 0,
                form: None,
                submitting: false,
                ..self.add
            },
            status: StatusModel { loading: false, error: None, notice: None, ..self.status },
            ..self
        };
        if self.has_add_options() {
            s
        } else {
            s.fetch_add_options()
        }
    }

    /// The path of the first root folder.
    pub open spec fn default_root(self) -> Seq<char> {
        if self.add.root_folders.len() > 0 {
            self.add.root_folders[0].path@
        } else {
            Seq::empty()
        }
    }

    /// The fields of the add form.
    pub open spec fn add_fields(self) -> Seq<FieldModel> {
        seq![
            FieldModel::text(ROOT, "Root folder", self.default_root()),
            FieldModel::select(
                QUALITY,
                "Quality profile",
                profile_names(self.add.quality_profiles),
                0,
            ),
            FieldModel::select(SERIES_TYPE_FIELD, "Series type", type_labels(), 0),
            FieldModel::toggle(SEASON_FOLDER, "Use season folders?", true),
            FieldModel::toggle(MONITORED, "Monitor this show?", true),
            FieldModel::toggle(SEARCH, "Search & download now?", true),
        ]
    }

    /// The form opens on the highlighted result, unless an add is under way or
    /// the pickers have nothing to offer. It takes the lookup object along, so
    /// that a later lookup cannot swap it.
    pub open spec fn start_add_flow(self) -> BrowseModel {
        if self.add.submitting {
            self.noticed("an add is already in progress")
        } else if self.add.cursor >= self.add.results.len() {
            self
        } else if !self.has_add_options() {
            self.noticed("add options unavailable: need a root folder and a quality profile")
        } else if self.add.cursor >= self.add.raw.len() {
            self
        } else {
            self.with_form(
                Some(
                    ActiveModel {
                        form: FormModel::opened(self.add_fields(), "Add"),
                        mode: FormMode::Add { body: self.add.raw[self.add.cursor as int] },
                        title: "Add series — "@ + label_text(
                            *self.add.results[self.add.cursor as int],
                        ),
                    },
                ),
            )
        }
    }

    /// The lookup object of a finished add form, with the user's choices set,
    /// sent to the server under a generation of its own.
    pub open spec fn commit_add(self, body: Value, form: FormModel) -> BrowseModel {
        let root = trimmed(form.text(ROOT));
        let profile = profile_id(self.add.quality_profiles, form.selected(QUALITY));
        if root.len() == 0 || profile is None {
            self.noticed("add cancelled: no root folder or quality profile")
        } else {
            let gen = next_gen(self.gens.counter);
            BrowseModel {
                add: AddModel {
                    pending_search: form.selected(SEARCH) == 0,
                    submitting: true,
                    ..self.add
                },
                status: StatusModel {
                    loading: true,
                    error: None,
                    notice: Some("adding..."),
                    ..self.status
                },
                gens: Gens { counter: gen, add: gen, ..self.gens },
                ..self
            }.sent(
                RequestModel::AddSeries {
                    add_gen: gen,
                    body: add_body(
                        body,
                        profile->0,
                        root,
                        form.selected(MONITORED) == 0,
                        form.selected(SEASON_FOLDER) == 0,
                        match series_type_value(form.selected(SERIES_TYPE_FIELD)) {
                            Some(value) => value@,
                            None => "standard"@,
                        },
                    ),
                },
            )
        }
    }

    /// The fields of the edit form, on the series' current values. The
    /// move-files row stays hidden until the root folder changes.
    pub open spec fn edit_fields(self, edit: PendingEdit) -> Seq<FieldModel> {
        seq![
            FieldModel::text(
                ROOT,
                "Root folder",
                match edit.root {
                    Some(root) => root@,
                    None => Seq::empty(),
                },
            ),
            FieldModel {
                visible: false,
                ..FieldModel::toggle(MOVE_FILES, "Move existing files?", false)
            },
            FieldModel::select(
                QUALITY,
                "Quality profile",
                profile_names(self.add.quality_profiles),
                match profile_at(self.add.quality_profiles, edit.quality) {
                    Some(i) => i as usize,
                    None => 0,
                },
            ),
            FieldModel::select(
                SERIES_TYPE_FIELD,
                "Series type",
                type_labels(),
                type_place(opt_text(edit.series_type)) as usize,
            ),
            FieldModel::toggle(SEASON_FOLDER, "Use season folders?", edit.season_folder),
        ]
    }

    pub open spec fn open_edit_form(self, edit: PendingEdit) -> BrowseModel {
        self.with_form(
            Some(
                ActiveModel {
                    form: FormModel::opened(self.edit_fields(edit), "Save"),
                    mode: FormMode::Edit { id: edit.id },
                    title: "Edit options — "@ + match series_with_id(
                        self.lists.all_series,
                        edit.id,
                    ) {
                        Some(series) => label_text(*series),
                        None => "series"@,
                    },
                },
            ),
        )
    }

    /// What an edit would start from: the series under the cursor of the list,
    /// or the one whose page is open.
    pub open spec fn editable(self) -> Option<PendingEdit> {
        let series = match self.level {
            Level::SeriesList => self.selected_series(),
            Level::Show { series } => Some(series),
            _ => None,
        };
        match series {
            Some(series) => Some(
                PendingEdit {
                    id: series.id,
                    root: series.root_folder_path,
                    quality: series.quality_profile_id,
                    series_type: series.series_type,
                    season_folder: series.season_folder,
                },
            ),
            None => None,
        }
    }

    /// The edit form opens at once, or by itself when its options arrive.
    pub open spec fn start_edit_flow(self) -> BrowseModel {
        match self.editable() {
            None => self,
            Some(edit) => if self.has_add_options() {
                self.open_edit_form(edit)
            } else {
                let s = BrowseModel {
                    add: AddModel { pending_edit: Some(edit), ..self.add },
                    ..self
                }.fetch_add_options();
                BrowseModel {
                    status: StatusModel {
                        loading: true,
                        notice: Some("loading options..."),
                        ..s.status
                    },
                    ..s
                }
            },
        }
    }

    /// What an edit form would change: only what is other than it opened with.
    /// A root folder cleared to nothing counts as no change.
    pub open spec fn edits(self, id: i64, form: FormModel) -> CallModel {
        let root = trimmed(form.text(ROOT));
        CallModel::EditOptions {
            id,
            root_folder: if form.changed(ROOT) && root.len() > 0 {
                Some(root)
            } else {
                None
            },
            move_files: form.selected(MOVE_FILES) == 0,
            quality_profile_id: if form.changed(QUALITY) {
                profile_id(self.add.quality_profiles, form.selected(QUALITY))
            } else {
                None
            },
            series_type: if form.changed(SERIES_TYPE_FIELD) {
                series_type_value(form.selected(SERIES_TYPE_FIELD))
            } else {
                None
            },
            season_folder: if form.changed(SEASON_FOLDER) {
                Some(form.selected(SEASON_FOLDER) == 0)
            } else {
                None
            },
        }
    }

    /// A finished edit form: what changed is sent, and nothing is where
    /// nothing did.
    pub open spec fn commit_edit(self, id: i64, form: FormModel) -> BrowseModel {
        match self.edits(id, form) {
            CallModel::EditOptions {
                root_folder: None,
                quality_profile_id: None,
                series_type: None,
                season_folder: None,
                ..
            } => self.noticed("no changes"),
            call => self.spawn_command(CommandKind::SetOptions, call),
        }
    }

    pub open spec fn commit_form(self, active: ActiveModel) -> BrowseModel {
        let s = self.with_form(None);
        match active.mode {
            FormMode::Edit { id } => s.commit_edit(id, active.form),
            FormMode::Add { body } => s.commit_add(body, active.form),
        }
    }

    /// The move-files row shown exactly while the root folder is another, and
    /// back on its first answer once it is not.
    pub open spec fn root_changed(form: FormModel) -> FormModel {
        if form.changed(ROOT) {
            form.with_visible(MOVE_FILES, true)
        } else {
            form.reset(MOVE_FILES).with_visible(MOVE_FILES, false)
        }
    }

    pub open spec fn form_key(self, key: KeyEvent) -> BrowseModel {
        let active = self.add.form->0;
        let after = ActiveModel { form: active.form.after_key(key), ..active };
        match active.form.key_event(key) {
            FormEvent::Consumed => self.with_form(Some(after)),
            FormEvent::Changed(id) => if id == ROOT && active.mode is Edit {
                self.with_form(
                    Some(ActiveModel { form: BrowseModel::root_changed(after.form), ..after }),
                )
            } else {
                self.with_form(Some(after))
            },
            FormEvent::Save => self.commit_form(after),
            FormEvent::Cancel => self.with_form(None),
        }
    }

    /// The monitored flag of what is under the cursor flipped, where there is
    /// something.
    pub open spec fn toggle_call(self) -> Option<CallModel> {
        match self.level {
            Level::SeriesList => match self.selected_series() {
                Some(series) => Some(
                    CallModel::SetSeriesMonitored { id: series.id, monitored: !series.monitored },
                ),
                None => None,
            },
            Level::Show { series } => match self.selected_season(*series) {
                Some(season) => Some(
                    CallModel::SetSeasonMonitored {
                        series_id: series.id,
                        season_number: season.season_number,
                        monitored: !season.monitored,
                    },
                ),
                None => None,
            },
            Level::Episodes { .. } => match self.selected_episode() {
                Some(episode) => Some(
                    CallModel::SetEpisodeMonitored {
                        id: episode.id,
                        monitored: !episode.monitored,
                    },
                ),
                None => None,
            },
            Level::EpisodeDetail { episode, .. } => Some(
                CallModel::SetEpisodeMonitored { id: episode.id, monitored: !episode.monitored },
            ),
            _ => None,
        }
    }

    pub open spec fn toggle_monitored(self) -> BrowseModel {
        match self.toggle_call() {
            Some(call) => self.spawn_command(CommandKind::SetMonitored, call),
            None => self,
        }
    }

    // Keys.

    pub open spec fn filter_key(self, key: KeyEvent) -> BrowseModel {
        let s = match key.code {
            KeyCode::Esc => BrowseModel {
                filter: FilterModel {
                    focused: false,
                    input: self.filter.input.cleared(),
                    active: false,
                    ..self.filter
                },
                ..self
            }.apply_filter(),
            KeyCode::Enter
            | KeyCode::Tab
            | KeyCode::BackTab
            | KeyCode::Up
            | KeyCode::Down => BrowseModel {
                filter: FilterModel {
                    focused: false,
                    active: self.filter.active && self.filter.input.value.len() > 0,
                    ..self.filter
                },
                ..self
            },
            _ => if self.filter.input.edits(key) {
                BrowseModel {
                    filter: FilterModel { input: self.filter.input.typed(key), ..self.filter },
                    ..self
                }.apply_filter()
            } else {
                self
            },
        };
        BrowseModel {
            filter: FilterModel { input: s.filter.input.with_focus(s.filter.focused), ..s.filter },
            ..s
        }
    }

    pub open spec fn add_search_key(self, key: KeyEvent) -> BrowseModel {
        let s = match key.code {
            KeyCode::Enter => BrowseModel {
                add: AddModel { search_focused: false, ..self.add },
                ..self
            }.fetch_lookup(self.add.search.value),
            KeyCode::Esc
            | KeyCode::Tab
            | KeyCode::BackTab
            | KeyCode::Up
            | KeyCode::Down => BrowseModel {
                add: AddModel { search_focused: false, ..self.add },
                ..self
            },
            _ => BrowseModel {
                add: AddModel { search: self.add.search.typed(key), ..self.add },
                ..self
            },
        };
        BrowseModel {
            add: AddModel { search: s.add.search.with_focus(s.add.search_focused), ..s.add },
            ..s
        }
    }

    pub open spec fn downloads_prompt_key(self, code: KeyCode) -> BrowseModel {
        let s = BrowseModel { downloads: self.downloads.after_prompt_key(code), ..self };
        match self.downloads.prompt_action(code) {
            ActionModel::Commit { ids, remove_from_client, blocklist } => s.spawn_command(
                CommandKind::DeleteQueue,
                CallModel::DeleteQueueItems { ids, remove_from_client, blocklist },
            ),
            _ => s,
        }
    }

    pub open spec fn confirm_key(self, code: KeyCode) -> BrowseModel {
        let closed = BrowseModel { popups: PopupsModel { confirm: None, ..self.popups }, ..self };
        match code {
            KeyCode::Char('y') | KeyCode::Char('Y') | KeyCode::Enter => closed.execute_confirm(
                self.popups.confirm->0,
            ),
            KeyCode::Char('n')
            | KeyCode::Char('N')
            | KeyCode::Esc
            | KeyCode::Char('q') => closed,
            _ => self,
        }
    }

    pub open spec fn delete_prompt_key(self, code: KeyCode) -> BrowseModel {
        let prompt = self.popups.delete_prompt->0;
        let closed = BrowseModel {
            popups: PopupsModel { delete_prompt: None, ..self.popups },
            ..self
        };
        match prompt.key_action(code) {
            DeleteAction::Commit { id, delete_files, add_exclusion } => closed.spawn_command(
                CommandKind::DeleteSeries(id),
                CallModel::DeleteSeries { id, delete_files, add_exclusion },
            ),
            DeleteAction::Cancelled => closed,
            DeleteAction::Consumed => BrowseModel {
                popups: PopupsModel { delete_prompt: Some(prompt.after_key(code)), ..self.popups },
                ..self
            },
        }
    }

    pub open spec fn sort_menu_key(self, code: KeyCode) -> BrowseModel {
        let selected = self.popups.sort_menu->0;
        let closed = BrowseModel { popups: PopupsModel { sort_menu: None, ..self.popups }, ..self };
        match code {
            KeyCode::Up => BrowseModel {
                popups: PopupsModel { sort_menu: Some(raised(selected, 1)), ..self.popups },
                ..self
            },
            KeyCode::Down => BrowseModel {
                popups: PopupsModel {
                    sort_menu: Some(menu_down(selected, self.sort.count as int)),
                    ..self.popups
                },
                ..self
            },
            KeyCode::Enter => {
                let sort = if selected < self.sort.count {
                    selected
                } else {
                    0
                };
                if sort != self.sort.current {
                    BrowseModel {
                        sort: Sorting { current: sort, ..closed.sort },
                        lists: ListsModel { series_cursor: 0, ..closed.lists },
                        ..closed
                    }.apply_filter().sent(RequestModel::Sort { sort })
                } else {
                    closed
                }
            },
            KeyCode::Esc | KeyCode::Char('q') | KeyCode::Char('v') => closed,
            _ => self,
        }
    }

    pub open spec fn search_menu_key(self, code: KeyCode) -> BrowseModel {
        let menu = self.popups.search_menu->0;
        let closed = BrowseModel {
            popups: PopupsModel { search_menu: None, ..self.popups },
            ..self
        };
        match code {
            KeyCode::Up => BrowseModel {
                popups: PopupsModel {
                    search_menu: Some(SearchMenu { cursor: raised(menu.cursor, 1), ..menu }),
                    ..self.popups
                },
                ..self
            },
            KeyCode::Down => BrowseModel {
                popups: PopupsModel {
                    search_menu: Some(SearchMenu { cursor: menu_down(menu.cursor, 3), ..menu }),
                    ..self.popups
                },
                ..self
            },
            KeyCode::Enter => closed.search_menu_choice(menu.cursor, menu.episode),
            KeyCode::Esc | KeyCode::Char('q') => closed,
            _ => self,
        }
    }

    pub open spec fn rejections_key(self, code: KeyCode) -> BrowseModel {
        let selected = self.popups.rejections->0;
        match code {
            KeyCode::Up => BrowseModel {
                popups: PopupsModel { rejections: Some(raised(selected, 1)), ..self.popups },
                ..self
            },
            KeyCode::Down => BrowseModel {
                popups: PopupsModel {
                    rejections: Some(menu_down(selected, self.rejection_count())),
                    ..self.popups
                },
                ..self
            },
            KeyCode::Esc
            | KeyCode::Enter
            | KeyCode::Char('q')
            | KeyCode::Char('x') => BrowseModel {
                popups: PopupsModel { rejections: None, ..self.popups },
                ..self
            },
            _ => self,
        }
    }

    /// The rows of a page of the episode info.
    pub open spec fn info_page(self) -> usize {
        if self.status.last_height > 5 {
            (self.status.last_height - 4) as usize
        } else {
            1
        }
    }

    pub open spec fn with_scroll(self, info_scroll: usize) -> BrowseModel {
        BrowseModel { status: StatusModel { info_scroll, ..self.status }, ..self }
    }

    /// The info scrolled down; drawing takes back what is too far.
    pub open spec fn scrolled(self, by: usize) -> BrowseModel {
        self.with_scroll(
            if self.status.info_scroll + by > usize::MAX {
                usize::MAX
            } else {
                (self.status.info_scroll + by) as usize
            },
        )
    }

    pub open spec fn help_toggled(self) -> BrowseModel {
        BrowseModel {
            status: StatusModel { show_full_help: !self.status.show_full_help, ..self.status },
            ..self
        }
    }

    /// A key on the episode info, which owns scrolling, deleting and closing.
    pub open spec fn info_key(self, code: KeyCode) -> BrowseModel {
        let page = self.info_page();
        match code {
            KeyCode::Up => self.with_scroll(raised(self.status.info_scroll, 1)),
            KeyCode::Down => self.scrolled(1),
            KeyCode::PageUp | KeyCode::Left => self.with_scroll(
                raised(self.status.info_scroll, page as int),
            ),
            KeyCode::PageDown | KeyCode::Right => self.scrolled(page),
            KeyCode::Home | KeyCode::Char('g') => self.with_scroll(0),
            KeyCode::End | KeyCode::Char('G') => self.with_scroll(usize::MAX),
            KeyCode::Char('x') => match self.level {
                Level::EpisodeDetail { episode, .. } => match episode.episode_file {
                    Some(file) => BrowseModel {
                        popups: PopupsModel {
                            confirm: Some(Confirm::DeleteFile { file_id: file.id }),
                            ..self.popups
                        },
                        ..self
                    },
                    None => self,
                },
                _ => self,
            },
            KeyCode::Esc | KeyCode::Backspace | KeyCode::Char('i') => self.pop_level().with_scroll(
                0,
            ),
            KeyCode::Char('m') => self.toggle_monitored(),
            KeyCode::Char('r') => self.refresh(),
            KeyCode::Char('?') => self.help_toggled(),
            _ => self,
        }
    }

    /// `esc` at the list clears an active filter; everywhere else it goes back.
    pub open spec fn back_key(self, code: KeyCode) -> BrowseModel {
        let s = self.pop_level();
        if self.level is SeriesList && self.filter.active && code == KeyCode::Esc {
            BrowseModel {
                filter: FilterModel {
                    input: self.filter.input.cleared(),
                    active: false,
                    ..self.filter
                },
                ..s
            }.apply_filter()
        } else {
            s
        }
    }

    pub open spec fn slash_key(self) -> BrowseModel {
        match self.level {
            Level::SeriesList => BrowseModel {
                filter: FilterModel {
                    active: true,
                    focused: true,
                    input: self.filter.input.with_focus(true),
                    ..self.filter
                },
                ..self
            },
            Level::Add => BrowseModel {
                add: AddModel {
                    search_focused: true,
                    search: self.add.search.with_focus(true),
                    cursor: 0,
                    ..self.add
                },
                ..self
            },
            _ => self,
        }
    }

    /// The info of the selected episode opened.
    pub open spec fn i_key(self) -> BrowseModel {
        match self.level {
            Level::Episodes { series, season } => match self.selected_episode() {
                Some(episode) => self.with_scroll(0).at(
                    Level::EpisodeDetail { series, season, episode },
                ),
                None => self,
            },
            _ => self,
        }
    }

    pub open spec fn x_key(self) -> BrowseModel {
        match self.level {
            Level::Search { .. } => if self.rejection_count() > 0 {
                BrowseModel { popups: PopupsModel { rejections: Some(0), ..self.popups }, ..self }
            } else {
                self
            },
            Level::Downloads => BrowseModel {
                downloads: self.downloads.deleting(queue_ids(self.lists.queue)),
                ..self
            },
            _ => self,
        }
    }

    pub open spec fn z_key(self) -> BrowseModel {
        match self.level {
            Level::Show { series } => BrowseModel {
                popups: PopupsModel {
                    delete_prompt: Some(
                        DeletePromptModel::opened(
                            series.id,
                            match series.title {
                                Some(title) => title@,
                                None => "this series"@,
                            },
                        ),
                    ),
                    ..self.popups
                },
                ..self
            },
            _ => self,
        }
    }

    pub open spec fn open_downloads(self) -> BrowseModel {
        BrowseModel {
            level: Level::Downloads,
            downloads: DownloadsModel::initial(),
            ..self
        }.fetch_queue()
    }

    pub open spec fn open_sort_menu(self) -> BrowseModel {
        BrowseModel {
            popups: PopupsModel {
                sort_menu: Some(
                    if self.sort.current < self.sort.count {
                        self.sort.current
                    } else {
                        0
                    },
                ),
                ..self.popups
            },
            ..self
        }
    }

    /// A key with no popup, field or prompt in the way.
    pub open spec fn level_key(self, code: KeyCode) -> BrowseModel {
        match code {
            KeyCode::Up => self.move_cursor(Step::Up),
            KeyCode::Down => self.move_cursor(Step::Down),
            KeyCode::Char('d') => if self.level is SeriesList {
                self.open_downloads()
            } else {
                self
            },
            KeyCode::PageUp | KeyCode::Left => self.move_cursor(Step::PageUp),
            KeyCode::PageDown | KeyCode::Right => self.move_cursor(Step::PageDown),
            KeyCode::Home | KeyCode::Char('g') => self.move_cursor(Step::Home),
            KeyCode::End | KeyCode::Char('G') => self.move_cursor(Step::End),
            KeyCode::Char('/') => self.slash_key(),
            KeyCode::Char('a') => if self.level is SeriesList {
                self.enter_add()
            } else {
                self
            },
            KeyCode::Esc | KeyCode::Backspace => self.back_key(code),
            KeyCode::Enter => self.open_selected(),
            KeyCode::Char(' ') => if self.level is Downloads {
                BrowseModel {
                    downloads: self.downloads.toggled(queue_ids(self.lists.queue)),
                    ..self
                }
            } else {
                self.open_selected()
            },
            KeyCode::Char('v') => if self.level is SeriesList {
                self.open_sort_menu()
            } else {
                self
            },
            KeyCode::Char('i') => self.i_key(),
            KeyCode::Char('x') => self.x_key(),
            KeyCode::Char('z') => self.z_key(),
            KeyCode::Char('m') => self.toggle_monitored(),
            KeyCode::Char('o') => self.start_edit_flow(),
            KeyCode::Char('r') => self.refresh(),
            KeyCode::Char('?') => self.help_toggled(),
            _ => self,
        }
    }

    /// Whether a field, form, prompt or popup takes every key.
    pub open spec fn is_modal(self) -> bool {
        ||| self.filter.focused
        ||| self.add.search_focused
        ||| self.add.form is Some
        ||| self.downloads.prompt is Some
        ||| self.popups.confirm is Some
        ||| self.popups.delete_prompt is Some
        ||| self.popups.sort_menu is Some
        ||| self.popups.search_menu is Some
        ||| self.popups.rejections is Some
    }

    /// The screen after a key.
    pub open spec fn after_key(self, key: KeyEvent) -> BrowseModel {
        if self.filter.focused {
            self.filter_key(key)
        } else if self.add.search_focused {
            self.add_search_key(key)
        } else if key.is_modified_char() {
            self
        } else if self.add.form is Some {
            self.form_key(key)
        } else if self.downloads.prompt is Some {
            self.downloads_prompt_key(key.code)
        } else if self.popups.confirm is Some {
            self.confirm_key(key.code)
        } else if self.popups.delete_prompt is Some {
            self.delete_prompt_key(key.code)
        } else if self.popups.sort_menu is Some {
            self.sort_menu_key(key.code)
        } else if self.popups.search_menu is Some {
            self.search_menu_key(key.code)
        } else if self.popups.rejections is Some {
            self.rejections_key(key.code)
        } else if self.level is EpisodeDetail {
            self.info_key(key.code)
        } else {
            self.level_key(key.code)
        }
    }

    /// Whether a key quits: a plain `q` that nothing modal takes.
    pub open spec fn quits(self, key: KeyEvent) -> bool {
        key.code == KeyCode::Char('q') && !key.is_modified_char() && !self.is_modal()
    }

    // Ticks.

    pub open spec fn tick_monitors(self) -> BrowseModel {
        let ticks = ticked(self.monitors, new_counts(self.lists.queue, self.monitors));
        let s = BrowseModel { monitors: kept(ticks, ticks.len()), ..self };
        let q = if wants_queue(ticks) {
            s.fetch_queue()
        } else {
            s
        };
        BrowseModel { outbox: q.outbox + poll_requests(polls(ticks)), ..q }
    }

    /// Whether the level shows download markers; the series list has none.
    pub open spec fn shows_queue(self) -> bool {
        !(self.level is SeriesList)
    }

    /// Whether the (possibly backed-off) poll interval has passed.
    pub open spec fn poll_due(self) -> bool {
        ticks_since(self.status.tick_count, self.status.last_poll_tick) >= poll_interval(
            self.status.queue_backoff,
        )
    }

    pub open spec fn polled_now(self) -> BrowseModel {
        BrowseModel {
            status: StatusModel { last_poll_tick: self.status.tick_count, ..self.status },
            ..self
        }.fetch_queue()
    }

    pub open spec fn after_tick(self) -> BrowseModel {
        let s = BrowseModel {
            status: StatusModel {
                spinner_frame: if self.status.loading {
                    ((self.status.spinner_frame + 1) % SPINNER_FRAMES as int) as usize
                } else {
                    self.status.spinner_frame
                },
                tick_count: if self.status.tick_count == u32::MAX {
                    0
                } else {
                    (self.status.tick_count + 1) as u32
                },
                ..self.status
            },
            ..self
        };
        let q = if s.status.active && s.shows_queue() && s.poll_due() {
            s.polled_now()
        } else {
            s
        };
        q.tick_monitors()
    }

    /// The tab shown or hidden. Coming back, the markers are refreshed at once
    /// where the level shows some.
    pub open spec fn with_active(self, active: bool) -> BrowseModel {
        let s = BrowseModel { status: StatusModel { active, ..self.status }, ..self };
        if active && !self.status.active {
            let t = BrowseModel {
                status: StatusModel {
                    queue_backoff: 0,
                    last_poll_tick: s.status.tick_count,
                    ..s.status
                },
                ..s
            };
            if t.shows_queue() {
                t.fetch_queue()
            } else {
                t
            }
        } else {
            s
        }
    }

    // Answers.

    /// The level with its series replaced by the list's copy.
    pub open spec fn level_synced(self, list: Seq<Arc<Series>>) -> Level {
        match self.level {
            Level::Show { series } => match series_with_id(list, series.id) {
                Some(updated) => Level::Show { series: updated },
                None => self.level,
            },
            Level::Episodes { series, season } => match series_with_id(list, series.id) {
                Some(updated) => Level::Episodes { series: updated, season },
                None => self.level,
            },
            Level::EpisodeDetail { series, season, episode } => match series_with_id(
                list,
                series.id,
            ) {
                Some(updated) => Level::EpisodeDetail { series: updated, season, episode },
                None => self.level,
            },
            Level::Search { series, season, episode } => match series_with_id(list, series.id) {
                Some(updated) => Level::Search { series: updated, season, episode },
                None => self.level,
            },
            _ => self.level,
        }
    }

    pub open spec fn after_series(
        self,
        fetch_gen: u64,
        result: Result<Seq<Arc<Series>>, Error>,
    ) -> BrowseModel {
        if fetch_gen != self.gens.fetch || self.level is Add {
            self
        } else {
            let s = self.idle();
            match result {
                Ok(list) => BrowseModel {
                    level: self.level_synced(list),
                    lists: ListsModel { all_series: list, ..s.lists },
                    ..s
                }.apply_filter().sent(RequestModel::Sort { sort: s.sort.current }),
                Err(err) => if err is Unauthorized {
                    s
                } else {
                    s.failed(err)
                },
            }
        }
    }

    /// The list in another order. Positions that do not name each entry of it
    /// once are refused: sorting loses nothing and brings nothing in.
    pub open spec fn sorted(self, order: Seq<usize>) -> BrowseModel {
        if is_order(order, self.lists.all_series.len()) {
            BrowseModel {
                lists: ListsModel {
                    all_series: reordered(self.lists.all_series, order),
                    ..self.lists
                },
                ..self
            }.apply_filter()
        } else {
            self
        }
    }

    /// The level with its episode replaced by the list's copy.
    pub open spec fn info_synced(self, list: Seq<Arc<Episode>>) -> Level {
        match self.level {
            Level::EpisodeDetail { series, season, episode } => match episode_with_id(
                list,
                episode.id,
            ) {
                Some(updated) => Level::EpisodeDetail { series, season, episode: updated },
                None => self.level,
            },
            _ => self.level,
        }
    }

    pub open spec fn after_episodes(
        self,
        fetch_gen: u64,
        result: Result<Seq<Arc<Episode>>, Error>,
    ) -> BrowseModel {
        if fetch_gen != self.gens.fetch {
            self
        } else {
            let s = self.idle();
            match result {
                Ok(list) => {
                    let episodes = in_order(list);
                    BrowseModel {
                        level: self.info_synced(episodes),
                        lists: ListsModel {
                            episodes,
                            episode_cursor: if s.lists.episode_cursor >= episodes.len() {
                                0
                            } else {
                                s.lists.episode_cursor
                            },
                            ..s.lists
                        },
                        ..s
                    }
                },
                Err(err) => if err is Unauthorized {
                    s
                } else {
                    s.failed(err)
                },
            }
        }
    }

    pub open spec fn after_queue(
        self,
        queue_gen: u64,
        result: Result<Seq<QueueItem>, Error>,
    ) -> BrowseModel {
        if queue_gen != self.gens.queue {
            self
        } else {
            let s = BrowseModel {
                status: StatusModel { queue_loading: false, ..self.status },
                ..self
            };
            match result {
                Ok(queue) => BrowseModel {
                    downloads: self.downloads.pruned(queue_ids(queue)),
                    lists: ListsModel { queue, ..s.lists },
                    status: StatusModel { queue_backoff: 0, ..s.status },
                    ..s
                },
                Err(err) => if err is Unauthorized {
                    s
                } else {
                    BrowseModel {
                        status: StatusModel {
                            queue_backoff: if self.status.queue_backoff
                                >= QUEUE_BACKOFF_MAX_SHIFT {
                                QUEUE_BACKOFF_MAX_SHIFT
                            } else {
                                (self.status.queue_backoff + 1) as u32
                            },
                            ..s.status
                        },
                        ..s
                    }
                },
            }
        }
    }

    pub open spec fn after_releases(
        self,
        fetch_gen: u64,
        result: Result<Seq<Release>, Error>,
    ) -> BrowseModel {
        if fetch_gen != self.gens.fetch {
            self
        } else {
            let s = self.idle();
            match result {
                Ok(releases) => BrowseModel {
                    lists: ListsModel { releases, release_cursor: 0, ..s.lists },
                    ..s
                },
                Err(err) => if err is Unauthorized {
                    s
                } else {
                    s.failed(err)
                },
            }
        }
    }

    pub open spec fn after_history(
        self,
        fetch_gen: u64,
        result: Result<Seq<HistoryRecord>, Error>,
    ) -> BrowseModel {
        if fetch_gen != self.gens.fetch {
            self
        } else {
            match result {
                Ok(history) => BrowseModel { lists: ListsModel { history, ..self.lists }, ..self },
                Err(_) => self,
            }
        }
    }

    /// The series whose pages are open.
    pub open spec fn viewed_series(self) -> Option<Arc<Series>> {
        match self.level {
            Level::Show { series }
            | Level::Episodes { series, .. }
            | Level::EpisodeDetail { series, .. }
            | Level::Search { series, .. } => Some(series),
            _ => None,
        }
    }

    /// The level left if it shows the series that was deleted.
    pub open spec fn leave_deleted(self, deleted_id: i64) -> BrowseModel {
        match self.viewed_series() {
            Some(series) => if series.id == deleted_id {
                self.at(Level::SeriesList)
            } else {
                self
            },
            None => self,
        }
    }

    pub open spec fn after_success(self, kind: CommandKind) -> BrowseModel {
        match kind {
            CommandKind::AutoSearch => self.noticed(
                "search started; grabbed downloads appear in the queue",
            ).fetch_queue(),
            CommandKind::Grab => self.pop_to_episodes().noticed(
                "release sent to the download client",
            ),
            CommandKind::DeleteFile => self.pop_to_episodes().noticed("episode file deleted"),
            CommandKind::DeleteSeries(deleted_id) => self.leave_deleted(
                deleted_id,
            ).fetch_series().fetch_queue().noticed("series deleted"),
            CommandKind::DeleteQueue => BrowseModel {
                downloads: DownloadsModel { marks: Set::empty(), ..self.downloads },
                ..self
            }.fetch_queue().noticed("removed from queue"),
            CommandKind::SetMonitored => self.refresh(),
            CommandKind::SetOptions => self.refresh().noticed("options updated"),
        }
    }

    /// A failed mutation is shown even when the view has moved on: that it did
    /// not take is something the user must learn. A success under another
    /// generation is dropped, since the newer fetch already reflects it.
    pub open spec fn after_command(
        self,
        fetch_gen: u64,
        kind: CommandKind,
        result: Result<(), Error>,
    ) -> BrowseModel {
        let current = fetch_gen == self.gens.fetch;
        match result {
            Err(err) => if err is Unauthorized {
                self
            } else if current {
                self.idle().failed(err)
            } else {
                self.failed(err)
            },
            Ok(_) => if current {
                self.idle().after_success(kind)
            } else {
                self
            },
        }
    }

    pub open spec fn after_lookup(
        self,
        add_lookup_gen: u64,
        result: Result<Seq<LookupEntry>, Error>,
    ) -> BrowseModel {
        if add_lookup_gen != self.gens.add_lookup {
            self
        } else {
            let s = self.idle();
            match result {
                Ok(entries) => BrowseModel {
                    add: AddModel {
                        results: entry_series(entries),
                        raw: entry_objects(entries),
                        cursor: 0,
                        ..s.add
                    },
                    ..s
                },
                Err(err) => if err is Unauthorized {
                    s
                } else {
                    s.failed(err)
                },
            }
        }
    }

    /// The wait for the forms' options ended, with what was waiting dropped.
    pub open spec fn wait_over(self) -> BrowseModel {
        BrowseModel {
            add: AddModel { pending_edit: None, ..self.add },
            status: StatusModel { loading: false, notice: None, ..self.status },
            ..self
        }
    }

    pub open spec fn after_add_options(
        self,
        prereq_gen: u64,
        result: Result<(Seq<RootFolder>, Seq<QualityProfile>), Error>,
    ) -> BrowseModel {
        if prereq_gen != self.gens.add_prereq {
            self
        } else {
            match result {
                Ok((root_folders, quality_profiles)) => {
                    let s = BrowseModel {
                        add: AddModel { root_folders, quality_profiles, ..self.add },
                        ..self
                    };
                    match self.add.pending_edit {
                        None => s,
                        Some(edit) => if self.level is SeriesList || self.level is Show {
                            s.wait_over().open_edit_form(edit)
                        } else {
                            s.wait_over()
                        },
                    }
                },
                Err(err) => if err is Unauthorized || self.add.pending_edit is None {
                    self
                } else {
                    self.wait_over().failed(err)
                },
            }
        }
    }

    /// The created series opened.
    pub open spec fn opened_added(self, series: Arc<Series>) -> BrowseModel {
        let s = self.open_series(series);
        BrowseModel {
            add: AddModel {
                submitting: false,
                results: Seq::empty(),
                raw: Seq::empty(),
                search: s.add.search.cleared(),
                search_focused: false,
                ..s.add
            },
            ..s
        }
    }

    /// An add finished. One that succeeded has happened on the server, so its
    /// search is started and the library refetched wherever the user is; only
    /// a current one opens the new series. A failed one that the user has left
    /// is dropped.
    pub open spec fn after_added(
        self,
        add_gen: u64,
        result: Result<Arc<Series>, Error>,
    ) -> BrowseModel {
        let current = add_gen == self.gens.add;
        match result {
            Ok(series) => {
                let s = BrowseModel {
                    add: AddModel { pending_search: false, ..self.add },
                    ..self
                };
                let t = if self.add.pending_search {
                    s.start_auto_search(series.id, label_text(*series))
                } else {
                    s
                };
                if current {
                    t.opened_added(series).fetch_series().fetch_queue().noticed("series added")
                } else {
                    t.fetch_series().fetch_queue()
                }
            },
            Err(err) => if !current {
                self
            } else {
                let s = BrowseModel {
                    add: AddModel { pending_search: false, submitting: false, ..self.add },
                    ..self
                };
                if err is Unauthorized {
                    s
                } else {
                    s.idle().failed(err)
                }
            },
        }
    }

    /// A tracked command was created, or failed to start.
    pub open spec fn after_search_started(
        self,
        generation: u64,
        result: Result<Command, Error>,
    ) -> BrowseModel {
        BrowseModel { monitors: with_started(self.monitors, generation, result), ..self }
    }

    /// A status poll landed; the queue is refreshed when the command completed.
    pub open spec fn after_search_polled(
        self,
        generation: u64,
        result: Result<Command, Error>,
    ) -> BrowseModel {
        let s = BrowseModel { monitors: with_polled(self.monitors, generation, result), ..self };
        if poll_completes(self.monitors, generation, result) {
            s.fetch_queue()
        } else {
            s
        }
    }

    /// The screen about to be drawn at a height.
    pub open spec fn measured(self, height: u16) -> BrowseModel {
        BrowseModel {
            status: StatusModel { last_height: height, ..self.status },
            downloads: self.downloads.clamped(self.lists.queue.len()),
            ..self
        }
    }
}

} // verus!
