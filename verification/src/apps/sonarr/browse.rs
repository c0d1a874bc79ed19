//! The Sonarr browse screen: series list, show detail (seasons), episode list,
//! episode file detail, and interactive search — a flat `Level` enum rather
//! than a stack, since every pop target is deterministic.
//!
//! The screen never waits: a key or a tick leaves [`Request`]s in the outbox,
//! which the program carries out, and their answers come back through the
//! `on_...` methods.

use serde_json::Value;
use std::collections::HashSet;
use std::sync::Arc;
use vstd::prelude::*;
use vstd::std_specs::hash::*;
use vstd::string::*;

use crate::app::{following_gen, modified_char, next_gen, KeyCode, KeyEvent};
use crate::apps::auto_search::{
    is_status_line, monitors_view, rejects_key, search_polled, search_started, shown_line,
    status_line, tick_round, Monitor, Round,
};
use crate::apps::delete_prompt::{DeleteAction, DeletePrompt};
use crate::apps::downloads;
use crate::apps::downloads::Downloads;
use crate::apps::sonarr::laws::{
    law_adds_keep_the_screen_well_formed, law_keys_keep_the_screen_well_formed,
    law_lookups_keep_the_screen_well_formed, law_mutations_keep_the_screen_well_formed,
    law_quiet_answers_keep_the_screen_well_formed, law_screen_opens_well_formed,
    law_series_keep_the_screen_well_formed, law_sorting_keeps_the_screen_well_formed, law_ticks_keep_the_screen_well_formed,
};
use crate::apps::sonarr::msg::{requests, Call, CommandKind, Request};
use crate::apps::sonarr::state::{
    add_body, add_options, entry_objects, entry_series, episode_with_id, in_order, listed, matching,
    new_counts, new_items, options, placed, poll_interval, poll_requests, profile_at, profile_names,
    queued_for, rejected, series_with_id, ticks_since, type_labels, ActiveModel, AddModel,
    BrowseModel, FilterModel, ListsModel, PopupsModel, StatusModel,
};
use crate::arr::models::{Command, HistoryRecord, QualityProfile, QueueItem, Release, RootFolder};
use crate::arr::rows::profile_labels;
use crate::arr::Error;
use crate::json::{
    bool_value, copy_value, int_value, json_bool, json_int, json_members, json_text, object_of,
    set_member, text_value,
};
use crate::sonarr::{Episode, Season, Series};
use crate::text::{
    contains, decimal_int, is_blank, opt_text, push_int, same_text, text_or, texts, to_lowercase,
    trim,
};
use crate::ui::form::{field_models, Field, Form, FormEvent};
use crate::ui::input::TextInput;
use crate::ui::line::Span;
use crate::ui::list::{next_entry, orders, reorder, smaller, step_cursor, Step};

verus! {

broadcast use group_hash_axioms;

/// Field ids of the add and edit forms; values are read by id.
pub const ROOT: usize = 0;

pub const QUALITY: usize = 1;

pub const SERIES_TYPE_FIELD: usize = 2;

pub const SEASON_FOLDER: usize = 3;

pub const MOVE_FILES: usize = 4;

pub const MONITORED: usize = 5;

pub const SEARCH: usize = 6;

/// The frames of the busy indicator.
pub const SPINNER_FRAMES: usize = 8;

/// Queue polls fire every this many 250ms ticks (~10s) while inside a show.
pub const QUEUE_POLL_TICKS: u32 = 40;

/// How many times the poll interval may double on repeated failures (~10s →
/// ~80s) before it stops growing.
pub const QUEUE_BACKOFF_MAX_SHIFT: u32 = 3;

/// The fully-backed-off poll interval: the base doubled as often as it may.
pub const QUEUE_POLL_MAX_TICKS: u32 = 320;

/// The entries of the search menu.
pub const SEARCH_MENU_OPTIONS: [&'static str; 3] = ["Auto search", "Interactive search", "Cancel"];

/// Sonarr's series types for the add and edit forms: (menu label, API value).
pub const SERIES_TYPE: [(&'static str, &'static str); 3] = [
    ("Standard", "standard"),
    ("Daily", "daily"),
    ("Anime", "anime"),
];

/// Where the user is inside the Sonarr app. Pops are deterministic:
/// EpisodeDetail/Search → Episodes → Show → SeriesList.
#[derive(Debug)]
pub enum Level {
    SeriesList,
    Show { series: Arc<Series> },
    Episodes { series: Arc<Series>, season: Season },
    /// One episode's description and file.
    EpisodeDetail { series: Arc<Series>, season: Season, episode: Arc<Episode> },
    /// Interactive search results for one missing (or upgradeable) episode.
    Search { series: Arc<Series>, season: Season, episode: Arc<Episode> },
    /// Add a new series: a persistent search box over the lookup and its
    /// results, from which the add form starts.
    Add,
    /// The download queue as a list the user can mark and remove from.
    Downloads,
}

/// A pending yes/no decision; modal while set.
#[derive(Debug, Clone, Copy, PartialEq, Eq, Structural)]
pub enum Confirm {
    DeleteFile { file_id: i64 },
    Grab { index: usize },
}

/// Whether the open form is adding a new series or editing a library one.
#[derive(Debug)]
pub enum FormMode {
    /// Editing the series with this id.
    Edit { id: i64 },
    /// Adding a new series from this lookup object, copied when the form
    /// opened, so that a lookup landing under the open form cannot swap it.
    Add { body: Value },
}

/// The open full-body form: the fields, what it commits to, and its header.
/// Modal while set.
#[derive(Debug)]
pub struct ActiveForm {
    pub form: Form,
    pub mode: FormMode,
    pub title: String,
}

/// An edit waiting for the picker lists: the series and its current values,
/// held until they arrive so that the form can open by itself.
#[derive(Debug)]
pub struct PendingEdit {
    pub id: i64,
    pub root: Option<String>,
    pub quality: i64,
    pub series_type: Option<String>,
    pub season_folder: bool,
}

/// The open "Auto/Interactive search" menu: the highlighted option plus the
/// episode it was opened on, so that a refetch landing under the open menu
/// cannot make the choice fire for a different episode.
#[derive(Debug)]
pub struct SearchMenu {
    pub cursor: usize,
    pub episode: Arc<Episode>,
}

/// What the browse screen wants its parent (the Sonarr app) to do.
#[derive(Debug, Clone, Copy, PartialEq, Eq, Structural)]
pub enum BrowseAction {
    Quit,
}

/// One entry of a lookup: the series read from it, where it could be read, and
/// the object itself, which an add forwards whole.
#[derive(Debug)]
pub struct LookupEntry {
    pub series: Option<Arc<Series>>,
    pub raw: Value,
}

/// The order of the series list.
#[derive(Debug, Clone, Copy, PartialEq, Eq, Structural)]
pub struct Sorting {
    /// The current sort, as a position among the program's sorts.
    pub current: usize,
    /// How many sorts there are.
    pub count: usize,
}

/// The periodic queue-poll interval (in ticks) for a given backoff exponent:
/// the base cadence doubled per failed poll, capped so a downed server is
/// retried with growing intervals instead of a fixed loop.
pub fn queue_poll_interval(backoff: u32) -> (ticks: u32)
    ensures
        ticks == poll_interval(backoff),
{
    if backoff >= QUEUE_BACKOFF_MAX_SHIFT {
        return QUEUE_POLL_MAX_TICKS;
    }
    let mut ticks: u32 = QUEUE_POLL_TICKS;
    let mut n: u32 = 0;
    while n < backoff
        invariant
            n <= backoff < QUEUE_BACKOFF_MAX_SHIFT,
            ticks == poll_interval(n),
        decreases backoff - n,
    {
        ticks = ticks * 2;
        n += 1;
    }
    ticks
}

/// A series' "Title (Year)" label.
pub open spec fn label_text(series: Series) -> Seq<char> {
    let title = match series.title {
        Some(title) => title@,
        None => "series"@,
    };
    if series.year is Some && series.year->0 > 0 {
        title + " ("@ + decimal_int(series.year->0 as int) + ")"@
    } else {
        title
    }
}

/// A series' "Title (Year)" label for the auto-search status line.
pub fn series_label(series: &Series) -> (label: String)
    ensures
        label@ == label_text(*series),
{
    let mut label: String = text_or(&series.title, "series");
    if let Some(year) = series.year {
        if year > 0 {
            label.append(" (");
            push_int(&mut label, year as i64);
            label.append(")");
        }
    }
    label
}

/// The series-type labels for a form field.
pub fn series_type_choices() -> (labels: Vec<String>)
    ensures
        texts(labels@) == type_labels(),
{
    let mut labels: Vec<String> = Vec::new();
    let mut i: usize = 0;
    while i < SERIES_TYPE.len()
        invariant
            i <= 3,
            labels@.len() == i,
            forall|k: int| 0 <= k < i ==> (#[trigger] labels@[k])@ == SERIES_TYPE@[k].0@,
        decreases 3 - i,
    {
        labels.push(SERIES_TYPE[i].0.to_owned());
        i += 1;
    }
    assert(texts(labels@) =~= type_labels());
    labels
}

proof fn lemma_profile_at_stays(profiles: Seq<QualityProfile>, id: i64, n: int)
    requires
        0 <= n <= profiles.len(),
        profile_at(profiles.take(n), id) is Some,
    ensures
        profile_at(profiles, id) == profile_at(profiles.take(n), id),
    decreases profiles.len() - n,
{
    if n < profiles.len() {
        assert(profiles.take(n + 1).drop_last() =~= profiles.take(n));
        lemma_profile_at_stays(profiles, id, n + 1);
    } else {
        assert(profiles.take(n) =~= profiles);
    }
}

/// Index of the series' current quality profile, or `None` if it no longer
/// exists in the profile list.
pub fn current_quality_index(profiles: &[QualityProfile], id: i64) -> (index: Option<usize>)
    ensures
        match index {
            Some(i) => profile_at(profiles@, id) == Some(i as int),
            None => profile_at(profiles@, id) is None,
        },
{
    let mut i: usize = 0;
    while i < profiles.len()
        invariant
            i <= profiles@.len(),
            profile_at(profiles@.take(i as int), id) is None,
        decreases profiles@.len() - i,
    {
        assert(profiles@.take(i + 1).drop_last() =~= profiles@.take(i as int));
        if profiles[i].id == id {
            proof {
                lemma_profile_at_stays(profiles@, id, i + 1);
            }
            return Some(i);
        }
        i += 1;
    }
    assert(profiles@.take(i as int) =~= profiles@);
    None
}

/// The place of a series type among the options; the first one for a type that
/// is unset or unknown.
pub open spec fn type_place(current: Option<Seq<char>>) -> int {
    if current == Some(SERIES_TYPE@[0].1@) {
        0
    } else if current == Some(SERIES_TYPE@[1].1@) {
        1
    } else if current == Some(SERIES_TYPE@[2].1@) {
        2
    } else {
        0
    }
}

/// Index into `SERIES_TYPE` for the series' current value, falling back to
/// "Standard" when unset or unrecognised.
pub fn current_series_type_index(current: Option<&str>) -> (index: usize)
    ensures
        index == type_place(
            (match current {
                Some(current) => Some(current@),
                None => None,
            }),
        ),
        index < 3,
{
    let Some(current) = current else {
        return 0;
    };
    if same_text(SERIES_TYPE[0].1, current) {
        return 0;
    }
    if same_text(SERIES_TYPE[1].1, current) {
        return 1;
    }
    if same_text(SERIES_TYPE[2].1, current) {
        return 2;
    }
    0
}

/// The lists the levels show.
pub struct Lists {
    pub all_series: Vec<Arc<Series>>,
    /// Positions in `all_series` of the visible rows (filter applied).
    pub filtered: Vec<usize>,
    pub series_cursor: usize,
    pub season_cursor: usize,
    pub episodes: Vec<Arc<Episode>>,
    pub episode_cursor: usize,
    pub releases: Vec<Release>,
    pub release_cursor: usize,
    /// Download queue, refreshed by the poll; drives every ↓ marker and the
    /// Downloads view.
    pub queue: Vec<QueueItem>,
    /// History of the episode currently being searched interactively.
    pub history: Vec<HistoryRecord>,
}

/// The title filter of the series list.
pub struct Filter {
    pub input: TextInput,
    pub active: bool,
    pub focused: bool,
}

/// The popups; each is modal while set.
pub struct Popups {
    /// Sort popup cursor; `None` when closed.
    pub sort_menu: Option<usize>,
    /// "Auto search / Interactive search / Cancel" popup, with the episode it
    /// was opened on.
    pub search_menu: Option<SearchMenu>,
    pub confirm: Option<Confirm>,
    /// The delete-series prompt (files / import-list-exclusion toggles),
    /// opened with `z` on the show page.
    pub delete_prompt: Option<DeletePrompt>,
    /// Cursor into the selected release's rejection list; `None` when closed.
    pub rejections: Option<usize>,
}

/// The add screen (a persistent search box and its lookup results) and the
/// forms with what their pickers offer.
pub struct AddScreen {
    pub search: TextInput,
    pub search_focused: bool,
    pub results: Vec<Arc<Series>>,
    /// The lookup objects behind `results`, index-aligned; an add forwards the
    /// whole object, since the server wants fields that a series drops.
    pub raw: Vec<Value>,
    pub cursor: usize,
    pub root_folders: Vec<RootFolder>,
    pub quality_profiles: Vec<QualityProfile>,
    /// An add is in flight; blocks a second submit until it lands.
    pub submitting: bool,
    /// The open add/edit form; modal while set and drawn full-body in place of
    /// the level content.
    pub form: Option<ActiveForm>,
    /// An edit waiting on the picker lists to load. Dropped if the user leaves
    /// the level meanwhile.
    pub pending_edit: Option<PendingEdit>,
    /// The just-committed add asked for an auto-search; read once it lands, to
    /// start a background monitor. Only one add is ever in flight.
    pub pending_search: bool,
}

/// What the chrome shows, and what it needs to know.
pub struct Status {
    pub loading: bool,
    /// A queue poll in flight; polls never overlap and never show a spinner.
    pub queue_loading: bool,
    pub error: Option<String>,
    /// One-line advisory (e.g. "search started"), shown in the error row when
    /// there is no error; cleared on the next fetch.
    pub notice: Option<&'static str>,
    pub has_fetched: bool,
    pub show_full_help: bool,
    pub tick_count: u32,
    pub spinner_frame: usize,
    /// Terminal height from the last draw, for page jumps and scroll clamps.
    pub last_height: u16,
    /// Scroll offset into the episode-info view.
    pub info_scroll: usize,
    /// Backoff exponent for the periodic queue poll: 0 when healthy, bumped
    /// (capped) on each failed poll, reset on the next success.
    pub queue_backoff: u32,
    /// `tick_count` at the last periodic poll, so the (possibly backed-off)
    /// interval is measured from when it actually last ran.
    pub last_poll_tick: u32,
    /// Whether this is the visible tab; the periodic poll pauses while hidden.
    pub active: bool,
}

/// The generations under which answers are awaited.
#[derive(Debug, Clone, Copy, PartialEq, Eq, Structural)]
pub struct Gens {
    /// The last generation handed out. A reconnect passes it on to the next
    /// screen, so a fetch still in flight can never collide with that one.
    pub counter: u64,
    /// The latest list fetch; older results are stale.
    pub fetch: u64,
    /// The latest queue poll, independent of list fetches.
    pub queue: u64,
    /// The latest lookup; bumped when the user leaves the add screen, so an
    /// abandoned lookup can't surface on the list.
    pub add_lookup: u64,
    /// The latest fetch of the forms' options.
    pub add_prereq: u64,
    /// The latest add; bumped on leave, so a committed add never yanks the
    /// user back.
    pub add: u64,
}

/// The browse screen.
pub struct Browse {
    pub level: Level,
    pub lists: Lists,
    /// Selection + prompt state for the Downloads level.
    pub downloads: Downloads,
    pub filter: Filter,
    pub sort: Sorting,
    pub popups: Popups,
    pub add: AddScreen,
    /// Background auto-search monitors, one per add-with-search still
    /// resolving.
    pub monitors: Vec<Monitor>,
    pub status: Status,
    pub gens: Gens,
    /// What the program is asked to do, in order.
    pub outbox: Vec<Request>,
}

impl View for Lists {
    type V = ListsModel;

    open spec fn view(&self) -> ListsModel {
        ListsModel {
            all_series: self.all_series@,
            filtered: self.filtered@,
            series_cursor: self.series_cursor,
            season_cursor: self.season_cursor,
            episodes: self.episodes@,
            episode_cursor: self.episode_cursor,
            releases: self.releases@,
            release_cursor: self.release_cursor,
            queue: self.queue@,
            history: self.history@,
        }
    }
}

impl View for Filter {
    type V = FilterModel;

    open spec fn view(&self) -> FilterModel {
        FilterModel { input: self.input@, active: self.active, focused: self.focused }
    }
}

impl View for Popups {
    type V = PopupsModel;

    open spec fn view(&self) -> PopupsModel {
        PopupsModel {
            sort_menu: self.sort_menu,
            search_menu: self.search_menu,
            confirm: self.confirm,
            delete_prompt: match self.delete_prompt {
                Some(prompt) => Some(prompt@),
                None => None,
            },
            rejections: self.rejections,
        }
    }
}

impl View for ActiveForm {
    type V = ActiveModel;

    open spec fn view(&self) -> ActiveModel {
        ActiveModel { form: self.form@, mode: self.mode, title: self.title@ }
    }
}

impl View for AddScreen {
    type V = AddModel;

    open spec fn view(&self) -> AddModel {
        AddModel {
            search: self.search@,
            search_focused: self.search_focused,
            results: self.results@,
            raw: self.raw@,
            cursor: self.cursor,
            root_folders: self.root_folders@,
            quality_profiles: self.quality_profiles@,
            submitting: self.submitting,
            form: match self.form {
                Some(active) => Some(active@),
                None => None,
            },
            pending_edit: self.pending_edit,
            pending_search: self.pending_search,
        }
    }
}

impl View for Status {
    type V = StatusModel;

    open spec fn view(&self) -> StatusModel {
        StatusModel {
            loading: self.loading,
            queue_loading: self.queue_loading,
            error: opt_text(self.error),
            notice: self.notice,
            has_fetched: self.has_fetched,
            show_full_help: self.show_full_help,
            tick_count: self.tick_count,
            spinner_frame: self.spinner_frame,
            last_height: self.last_height,
            info_scroll: self.info_scroll,
            queue_backoff: self.queue_backoff,
            last_poll_tick: self.last_poll_tick,
            active: self.active,
        }
    }
}

impl View for Browse {
    type V = BrowseModel;

    open spec fn view(&self) -> BrowseModel {
        BrowseModel {
            level: self.level,
            lists: self.lists@,
            downloads: self.downloads@,
            filter: self.filter@,
            sort: self.sort,
            popups: self.popups@,
            add: self.add@,
            monitors: monitors_view(self.monitors@),
            status: self.status@,
            gens: self.gens,
            outbox: requests(self.outbox@),
        }
    }
}

/// The first series of a list with an id.
pub(crate) fn find_series(all: &Vec<Arc<Series>>, id: i64) -> (found: Option<Arc<Series>>)
    ensures
        found == series_with_id(all@, id),
{
    let mut i: usize = 0;
    assert(all@.skip(0) =~= all@);
    while i < all.len()
        invariant
            i <= all@.len(),
            series_with_id(all@.skip(i as int), id) == series_with_id(all@, id),
        decreases all@.len() - i,
    {
        if all[i].id == id {
            return Some(all[i].clone());
        }
        assert(all@.skip(i as int).drop_first() =~= all@.skip(i + 1));
        i += 1;
    }
    None
}

/// The first episode of a list with an id.
fn find_episode(list: &Vec<Arc<Episode>>, id: i64) -> (found: Option<Arc<Episode>>)
    ensures
        found == episode_with_id(list@, id),
{
    let mut i: usize = 0;
    assert(list@.skip(0) =~= list@);
    while i < list.len()
        invariant
            i <= list@.len(),
            episode_with_id(list@.skip(i as int), id) == episode_with_id(list@, id),
        decreases list@.len() - i,
    {
        if list[i].id == id {
            return Some(list[i].clone());
        }
        assert(list@.skip(i as int).drop_first() =~= list@.skip(i + 1));
        i += 1;
    }
    None
}

/// The positions that a filter text leaves visible.
fn filtered_positions(all: &Vec<Arc<Series>>, needle: &str) -> (list: Vec<usize>)
    ensures
        list@ == matching(all@, needle@),
{
    let mut list: Vec<usize> = Vec::new();
    let mut i: usize = 0;
    while i < all.len()
        invariant
            i <= all@.len(),
            list@ == matching(all@.take(i as int), needle@),
        decreases all@.len() - i,
    {
        assert(all@.take(i + 1).drop_last() =~= all@.take(i as int));
        let title: String = text_or(&all[i].title, "");
        proof {
            reveal_strlit("");
            assert(""@ =~= Seq::<char>::empty());
        }
        if contains(to_lowercase(title.as_str()).as_str(), needle) {
            list.push(i);
        }
        i += 1;
    }
    assert(all@.take(i as int) =~= all@);
    list
}

/// Every position of a list this long.
fn all_positions(len: usize) -> (list: Vec<usize>)
    ensures
        list@ == Seq::new(len as nat, |i: int| i as usize),
{
    let mut list: Vec<usize> = Vec::new();
    let mut i: usize = 0;
    while i < len
        invariant
            i <= len,
            list@.len() == i,
            forall|k: int| 0 <= k < i ==> #[trigger] list@[k] == k as usize,
        decreases len - i,
    {
        list.push(i);
        i += 1;
    }
    assert(list@ =~= Seq::new(len as nat, |i: int| i as usize));
    list
}

/// Put an episode into an ordered list, behind those it does not come before.
fn place(list: &mut Vec<Arc<Episode>>, episode: Arc<Episode>)
    ensures
        final(list)@ == placed(old(list)@, episode),
{
    let ghost before = list@;
    let mut n: usize = list.len();
    assert(before.take(n as int) =~= before);
    assert(before.skip(n as int) =~= Seq::empty());
    assert(placed(before.take(n as int), episode) + before.skip(n as int) =~= placed(
        before,
        episode,
    ));
    while n > 0 && list[n - 1].episode_number > episode.episode_number
        invariant
            list@ == before,
            n <= before.len(),
            placed(before.take(n as int), episode) + before.skip(n as int) == placed(
                before,
                episode,
            ),
        decreases n,
    {
        proof {
            let upto = before.take(n as int);
            assert(upto.last() == before[n - 1]);
            assert(upto.drop_last() =~= before.take(n - 1));
            assert(placed(before.take(n - 1), episode) + before.skip(n - 1) =~= placed(
                upto,
                episode,
            ) + before.skip(n as int));
        }
        n -= 1;
    }
    proof {
        let upto = before.take(n as int);
        assert(n > 0 ==> upto.last() == before[n - 1]);
        assert(placed(upto, episode) == upto.push(episode));
        assert(before.insert(n as int, episode) =~= upto.push(episode) + before.skip(n as int));
    }
    list.insert(n, episode);
}

/// The episodes by number.
fn sort_episodes(list: Vec<Arc<Episode>>) -> (ordered: Vec<Arc<Episode>>)
    ensures
        ordered@ == in_order(list@),
{
    let mut ordered: Vec<Arc<Episode>> = Vec::new();
    let mut i: usize = 0;
    while i < list.len()
        invariant
            i <= list@.len(),
            ordered@ == in_order(list@.take(i as int)),
        decreases list@.len() - i,
    {
        assert(list@.take(i + 1).drop_last() =~= list@.take(i as int));
        place(&mut ordered, list[i].clone());
        i += 1;
    }
    assert(list@.take(i as int) =~= list@);
    ordered
}

/// The downloads a series has in the queue.
fn queued_ids(queue: &Vec<QueueItem>, series_id: i64) -> (ids: HashSet<i64>)
    ensures
        ids@ == queued_for(queue@, series_id),
{
    let mut ids: HashSet<i64> = HashSet::new();
    let mut i: usize = 0;
    while i < queue.len()
        invariant
            i <= queue@.len(),
            ids@ == queued_for(queue@.take(i as int), series_id),
        decreases queue@.len() - i,
    {
        assert(queue@.take(i + 1).drop_last() =~= queue@.take(i as int));
        if queue[i].series_id == Some(series_id) {
            ids.insert(queue[i].id);
        }
        i += 1;
    }
    assert(queue@.take(i as int) =~= queue@);
    ids
}

/// The object that adds a series: the lookup object with the user's choices
/// set. Every other member of the lookup object is forwarded as it came.
pub fn add_payload(
    raw: &Value,
    quality_profile_id: i64,
    root_folder: &str,
    monitored: bool,
    season_folder: bool,
    series_type: &str,
) -> (body: Value)
    ensures
        body == add_body(
            *raw,
            quality_profile_id,
            root_folder@,
            monitored,
            season_folder,
            series_type@,
        ),
        json_members(body) == match json_members(*raw) {
            Some(members) => Some(
                members.insert("qualityProfileId"@, json_int(quality_profile_id as int)).insert(
                    "rootFolderPath"@,
                    json_text(root_folder@),
                ).insert("monitored"@, json_bool(monitored)).insert(
                    "seasonFolder"@,
                    json_bool(season_folder),
                ).insert("seriesType"@, json_text(series_type@)).insert(
                    "addOptions"@,
                    add_options(monitored),
                ),
            ),
            None => None,
        },
{
    let monitor: &str = if monitored {
        "all"
    } else {
        "none"
    };
    let mut add: Value = object_of("searchForMissingEpisodes", bool_value(false));
    set_member(&mut add, "monitor", text_value(monitor));
    let mut body: Value = copy_value(raw);
    set_member(&mut body, "qualityProfileId", int_value(quality_profile_id));
    set_member(&mut body, "rootFolderPath", text_value(root_folder));
    set_member(&mut body, "monitored", bool_value(monitored));
    set_member(&mut body, "seasonFolder", bool_value(season_folder));
    set_member(&mut body, "seriesType", text_value(series_type));
    set_member(&mut body, "addOptions", add);
    body
}

impl Browse {
    /// Open the screen: the series list is asked for at once.
    pub fn new(gen_counter: u64, sort_count: usize) -> (browse: Self)
        ensures
            browse@ == BrowseModel::initial(gen_counter, sort_count).fetch_series(),
            browse@.wf(),
    {
        let mut browse = Browse {
            level: Level::SeriesList,
            lists: Lists {
                all_series: Vec::new(),
                filtered: Vec::new(),
                series_cursor: 0,
                season_cursor: 0,
                episodes: Vec::new(),
                episode_cursor: 0,
                releases: Vec::new(),
                release_cursor: 0,
                queue: Vec::new(),
                history: Vec::new(),
            },
            downloads: Downloads::new(),
            filter: Filter { input: TextInput::new(), active: false, focused: false },
            sort: Sorting { current: 0, count: sort_count },
            popups: Popups {
                sort_menu: None,
                search_menu: None,
                confirm: None,
                delete_prompt: None,
                rejections: None,
            },
            add: AddScreen {
                search: TextInput::new(),
                search_focused: false,
                results: Vec::new(),
                raw: Vec::new(),
                cursor: 0,
                root_folders: Vec::new(),
                quality_profiles: Vec::new(),
                submitting: false,
                form: None,
                pending_edit: None,
                pending_search: false,
            },
            monitors: Vec::new(),
            status: Status {
                loading: false,
                queue_loading: false,
                error: None,
                notice: None,
                has_fetched: false,
                show_full_help: false,
                tick_count: 0,
                spinner_frame: 0,
                last_height: 24,
                info_scroll: 0,
                queue_backoff: 0,
                last_poll_tick: 0,
                active: true,
            },
            gens: Gens {
                counter: gen_counter,
                fetch: 0,
                queue: 0,
                add_lookup: 0,
                add_prereq: 0,
                add: 0,
            },
            outbox: Vec::new(),
        };
        proof {
            let start = BrowseModel::initial(gen_counter, sort_count);
            assert(browse@.outbox =~= start.outbox);
            assert(browse@.monitors =~= start.monitors);
        }
        browse.fetch_series();
        proof {
            law_screen_opens_well_formed(gen_counter, sort_count);
        }
        browse
    }

    /// Hand the collected requests over.
    pub fn take_requests(&mut self) -> (list: Vec<Request>)
        ensures
            requests(list@) == old(self)@.outbox,
            final(self)@ == (BrowseModel { outbox: Seq::empty(), ..old(self)@ }),
    {
        let mut list: Vec<Request> = Vec::new();
        std::mem::swap(&mut list, &mut self.outbox);
        assert(requests(self.outbox@) =~= Seq::empty());
        list
    }

    fn send(&mut self, request: Request)
        ensures
            final(self)@ == old(self)@.sent(request@),
    {
        let ghost before = self.outbox@;
        self.outbox.push(request);
        assert(requests(self.outbox@) =~= requests(before).push(request@));
    }

    /// The next generation.
    fn allocate(&mut self) -> (gen: u64)
        ensures
            gen == next_gen(old(self).gens.counter),
            final(self)@ == (BrowseModel {
                gens: Gens { counter: gen, ..old(self).gens },
                ..old(self)@
            }),
    {
        self.gens.counter = following_gen(self.gens.counter);
        self.gens.counter
    }

    /// Mark a list fetch as started and allocate its generation; any result
    /// carrying an older generation is stale and dropped on arrival.
    fn begin_fetch(&mut self) -> (gen: u64)
        ensures
            final(self)@ == old(self)@.begin_fetch(),
            gen == final(self)@.gens.fetch,
    {
        self.status.loading = true;
        self.status.error = None;
        if self.status.has_fetched {
            self.status.notice = None;
        }
        self.status.has_fetched = true;
        let gen: u64 = self.allocate();
        self.gens.fetch = gen;
        gen
    }

    pub fn fetch_series(&mut self)
        ensures
            final(self)@ == old(self)@.fetch_series(),
    {
        let fetch_gen: u64 = self.begin_fetch();
        self.send(Request::Series { fetch_gen });
    }

    pub fn fetch_episodes(&mut self, series_id: i64, season_number: i32)
        ensures
            final(self)@ == old(self)@.fetch_episodes(series_id, season_number),
    {
        let fetch_gen: u64 = self.begin_fetch();
        self.send(Request::Episodes { fetch_gen, series_id, season_number });
    }

    /// One queue poll; skipped while another is in flight so a slow server
    /// never stacks requests.
    pub fn fetch_queue(&mut self)
        ensures
            final(self)@ == old(self)@.fetch_queue(),
    {
        if self.status.queue_loading {
            return;
        }
        self.status.queue_loading = true;
        let gen: u64 = self.allocate();
        self.gens.queue = gen;
        self.send(Request::Queue { queue_gen: gen });
    }

    /// Interactive search: releases and the episode's history fetched under
    /// one generation. The history only feeds the "grabbed before" marker, so
    /// it may trickle in after the releases.
    pub fn fetch_releases(&mut self, episode_id: i64)
        ensures
            final(self)@ == old(self)@.fetch_releases(episode_id),
    {
        let fetch_gen: u64 = self.begin_fetch();
        self.lists.releases.clear();
        self.lists.history.clear();
        self.lists.release_cursor = 0;
        self.send(Request::Releases { fetch_gen, episode_id });
        self.send(Request::History { fetch_gen, episode_id });
    }

    /// Run a mutation under the current view generation.
    fn spawn_command(&mut self, kind: CommandKind, call: Call)
        ensures
            final(self)@ == old(self)@.spawn_command(kind, call@),
    {
        self.status.loading = true;
        let fetch_gen: u64 = self.gens.fetch;
        self.send(Request::Command { fetch_gen, kind, call });
    }

    /// Fetch the root folders and quality profiles the forms pick from, on
    /// their own generation so a lookup can't invalidate them.
    pub fn fetch_add_options(&mut self)
        ensures
            final(self)@ == old(self)@.fetch_add_options(),
    {
        let gen: u64 = self.allocate();
        self.gens.add_prereq = gen;
        self.send(Request::AddOptions { prereq_gen: gen });
    }

    /// Run a lookup for the add screen; a blank term just clears the list.
    pub fn fetch_lookup(&mut self, term: String)
        ensures
            final(self)@ == old(self)@.fetch_lookup(term@),
    {
        if is_blank(term.as_str()) {
            self.add.results.clear();
            self.add.raw.clear();
            self.add.cursor = 0;
            return;
        }
        self.status.loading = true;
        self.status.error = None;
        let gen: u64 = self.allocate();
        self.gens.add_lookup = gen;
        self.send(Request::Lookup { add_lookup_gen: gen, term });
    }

    /// Start tracking a background auto-search for a just-added series. The
    /// baseline snapshot lets the outcome check tell a fresh grab from a
    /// download that was already queued.
    fn start_auto_search(&mut self, series_id: i64, title: String)
        ensures
            final(self)@ == old(self)@.start_auto_search(series_id, title@),
    {
        let generation: u64 = self.allocate();
        let baseline: HashSet<i64> = queued_ids(&self.lists.queue, series_id);
        let ghost before = self.monitors@;
        let monitor = Monitor::new(generation, series_id, title, baseline);
        self.monitors.push(monitor);
        assert(monitors_view(self.monitors@) =~= monitors_view(before).push(monitor@));
        self.send(Request::AutoSearch { generation, series_id });
    }

    pub fn apply_filter(&mut self)
        ensures
            final(self)@ == old(self)@.apply_filter(),
    {
        if !self.filter.active || self.filter.input.value().is_empty() {
            self.lists.filtered = all_positions(self.lists.all_series.len());
        } else {
            let needle: String = to_lowercase(self.filter.input.value());
            self.lists.filtered = filtered_positions(&self.lists.all_series, needle.as_str());
        }
        if self.lists.series_cursor >= self.lists.filtered.len() {
            self.lists.series_cursor = 0;
        }
    }

    pub fn selected_series(&self) -> (series: Option<Arc<Series>>)
        ensures
            series == self@.selected_series(),
    {
        if self.lists.series_cursor < self.lists.filtered.len() {
            let index: usize = self.lists.filtered[self.lists.series_cursor];
            if index < self.lists.all_series.len() {
                Some(self.lists.all_series[index].clone())
            } else {
                None
            }
        } else {
            None
        }
    }

    pub fn selected_episode(&self) -> (episode: Option<Arc<Episode>>)
        ensures
            episode == self@.selected_episode(),
    {
        if self.lists.episode_cursor < self.lists.episodes.len() {
            Some(self.lists.episodes[self.lists.episode_cursor].clone())
        } else {
            None
        }
    }

    pub fn selected_release(&self) -> (release: Option<&Release>)
        ensures
            release is Some == self@.selected_release() is Some,
            release is Some ==> *release->0 == self@.selected_release()->0,
    {
        if self.lists.release_cursor < self.lists.releases.len() {
            Some(&self.lists.releases[self.lists.release_cursor])
        } else {
            None
        }
    }

    pub(crate) fn rejection_count(&self) -> (count: usize)
        ensures
            count == self@.rejection_count(),
    {
        match self.selected_release() {
            Some(release) => release.rejections.len(),
            None => 0,
        }
    }

    /// The season under the cursor of a show.
    fn selected_season(&self, series: &Series) -> (season: Option<Season>)
        ensures
            season == self@.selected_season(*series),
    {
        if self.lists.season_cursor < series.seasons.len() {
            Some(series.seasons[self.lists.season_cursor])
        } else {
            None
        }
    }

    /// The cursor of the current level's list, with the list length; `None`
    /// on the (list-less) episode detail.
    pub fn cursor_and_len(&self) -> (r: Option<(usize, usize)>)
        ensures
            r == self@.cursor_and_len(),
    {
        match &self.level {
            Level::SeriesList => Some((self.lists.series_cursor, self.lists.filtered.len())),
            Level::Show { series } => Some((self.lists.season_cursor, series.seasons.len())),
            Level::Episodes { .. } => Some(
                (self.lists.episode_cursor, self.lists.episodes.len()),
            ),
            Level::EpisodeDetail { .. } => None,
            Level::Search { .. } => Some((self.lists.release_cursor, self.lists.releases.len())),
            Level::Add => Some((self.add.cursor, self.add.results.len())),
            Level::Downloads => Some((self.downloads.cursor, self.lists.queue.len())),
        }
    }

    fn set_cursor(&mut self, cursor: usize)
        ensures
            final(self)@ == old(self)@.with_cursor(cursor),
    {
        match &self.level {
            Level::SeriesList => {
                self.lists.series_cursor = cursor;
            },
            Level::Show { .. } => {
                self.lists.season_cursor = cursor;
            },
            Level::Episodes { .. } => {
                self.lists.episode_cursor = cursor;
            },
            Level::EpisodeDetail { .. } => {},
            Level::Search { .. } => {
                self.lists.release_cursor = cursor;
            },
            Level::Add => {
                self.add.cursor = cursor;
            },
            Level::Downloads => {
                self.downloads.cursor = cursor;
            },
        }
    }

    fn move_cursor(&mut self, step: Step)
        ensures
            final(self)@ == old(self)@.move_cursor(step),
    {
        let jump: u16 = self.status.last_height / 5;
        let page: usize = if jump == 0 {
            1
        } else {
            jump as usize
        };
        if let Some((cursor, len)) = self.cursor_and_len() {
            self.set_cursor(step_cursor(step, cursor, len, page));
        }
    }

    /// Return from a detail/search level to the episode list and refetch it
    /// (and the queue): both callers just changed server state.
    fn pop_to_episodes(&mut self)
        ensures
            final(self)@ == old(self)@.pop_to_episodes(),
    {
        let (series, season): (Arc<Series>, Season) = match &self.level {
            Level::EpisodeDetail { series, season, .. } => (series.clone(), *season),
            Level::Search { series, season, .. } => (series.clone(), *season),
            _ => {
                return;
            },
        };
        self.fetch_episodes(series.id, season.season_number);
        self.fetch_queue();
        self.level = Level::Episodes { series, season };
    }

    fn open_series(&mut self, series: Arc<Series>)
        ensures
            final(self)@ == old(self)@.open_series(series),
    {
        self.lists.season_cursor = 0;
        self.status.info_scroll = 0;
        self.level = Level::Show { series };
    }

    fn open_season(&mut self, series: Arc<Series>, season: Season)
        ensures
            final(self)@ == old(self)@.open_season(series, season),
    {
        self.lists.episode_cursor = 0;
        self.lists.episodes.clear();
        self.fetch_episodes(series.id, season.season_number);
        self.fetch_queue();
        self.level = Level::Episodes { series, season };
    }

    pub fn open_selected(&mut self)
        ensures
            final(self)@ == old(self)@.open_selected(),
    {
        match &self.level {
            Level::SeriesList => {
                if let Some(series) = self.selected_series() {
                    self.open_series(series);
                    self.fetch_queue();
                }
            },
            Level::Show { series } => {
                let series: Arc<Series> = series.clone();
                if let Some(season) = self.selected_season(&series) {
                    self.open_season(series, season);
                }
            },
            // Enter always searches (Auto/Interactive) for any episode,
            // including a downloaded one, so upgrades are reachable. The
            // episode info/file details live under `i` instead.
            Level::Episodes { .. } => {
                if let Some(episode) = self.selected_episode() {
                    self.popups.search_menu = Some(SearchMenu { cursor: 0, episode });
                }
            },
            Level::EpisodeDetail { .. } => {},
            Level::Search { .. } => {
                if self.selected_release().is_some() {
                    self.popups.confirm = Some(Confirm::Grab { index: self.lists.release_cursor });
                }
            },
            Level::Add => {
                self.start_add_flow();
            },
            // Nothing to open; space is intercepted earlier to toggle a mark.
            Level::Downloads => {},
        }
    }

    fn leave_add(&mut self)
        ensures
            final(self)@ == old(self)@.leave_add(),
    {
        self.level = Level::SeriesList;
        self.add.results.clear();
        self.add.raw.clear();
        self.add.search.clear();
        self.add.search_focused = false;
        self.add.form = None;
        self.add.submitting = false;
        // Supersede any in-flight lookup and add so a late result can't
        // surface an error on, or navigate away from, the list.
        let gen: u64 = self.allocate();
        self.gens.add_lookup = gen;
        let gen: u64 = self.allocate();
        self.gens.add = gen;
        self.status.loading = false;
        self.status.error = None;
    }

    fn leave_search(&mut self, series: Arc<Series>, season: Season)
        ensures
            final(self)@ == old(self)@.leave_search(series, season),
    {
        // The release search may take minutes; a result — or error — landing
        // after the user left must not stamp itself onto the episode list.
        let gen: u64 = self.allocate();
        self.gens.fetch = gen;
        self.status.loading = false;
        self.status.error = None;
        self.lists.releases.clear();
        self.lists.history.clear();
        self.level = Level::Episodes { series, season };
    }

    /// Pop one level; returns false at the series list so the caller can give
    /// esc its list-level meaning (clear filter) instead.
    pub fn pop_level(&mut self) -> (popped: bool)
        ensures
            final(self)@ == old(self)@.pop_level(),
            popped == !(old(self)@.level is SeriesList),
    {
        // Going back while the pickers are still loading cancels a deferred
        // edit.
        self.add.pending_edit = None;
        match &self.level {
            Level::SeriesList => false,
            Level::Downloads => {
                self.level = Level::SeriesList;
                self.downloads.reset();
                true
            },
            Level::Show { .. } => {
                self.level = Level::SeriesList;
                true
            },
            Level::Episodes { series, .. } => {
                let series: Arc<Series> = series.clone();
                self.level = Level::Show { series };
                true
            },
            Level::EpisodeDetail { series, season, .. } => {
                let series: Arc<Series> = series.clone();
                let season: Season = *season;
                self.level = Level::Episodes { series, season };
                true
            },
            Level::Search { series, season, .. } => {
                let series: Arc<Series> = series.clone();
                let season: Season = *season;
                self.leave_search(series, season);
                true
            },
            Level::Add => {
                self.leave_add();
                true
            },
        }
    }

    pub fn refresh(&mut self)
        ensures
            final(self)@ == old(self)@.refresh(),
    {
        match &self.level {
            Level::Downloads => {
                self.fetch_queue();
            },
            Level::SeriesList => {
                self.fetch_series();
            },
            // Season stats live on the series; the copy on the level is
            // refreshed when the list arrives.
            Level::Show { .. } => {
                self.fetch_series();
                self.fetch_queue();
            },
            Level::Episodes { series, season } => {
                let id: i64 = series.id;
                let number: i32 = season.season_number;
                self.fetch_episodes(id, number);
                self.fetch_queue();
            },
            Level::EpisodeDetail { series, season, .. } => {
                let id: i64 = series.id;
                let number: i32 = season.season_number;
                self.fetch_episodes(id, number);
                self.fetch_queue();
            },
            Level::Search { episode, .. } => {
                let id: i64 = episode.id;
                self.fetch_releases(id);
            },
            Level::Add => {
                self.fetch_add_options();
                let term: String = self.add.search.value().to_owned();
                if !is_blank(term.as_str()) {
                    self.fetch_lookup(term);
                }
            },
        }
    }

    fn execute_confirm(&mut self, confirm: Confirm)
        ensures
            final(self)@ == old(self)@.execute_confirm(confirm),
    {
        match confirm {
            Confirm::DeleteFile { file_id } => {
                self.spawn_command(CommandKind::DeleteFile, Call::DeleteEpisodeFile { file_id });
            },
            Confirm::Grab { index } => {
                if index < self.lists.releases.len() {
                    let guid: String = self.lists.releases[index].guid.clone();
                    let indexer_id: i64 = self.lists.releases[index].indexer_id;
                    self.spawn_command(CommandKind::Grab, Call::GrabRelease { guid, indexer_id });
                }
            },
        }
    }

    fn on_search_menu_choice(&mut self, choice: usize, episode: Arc<Episode>)
        ensures
            final(self)@ == old(self)@.search_menu_choice(choice, episode),
    {
        let (series, season): (Arc<Series>, Season) = match &self.level {
            Level::Episodes { series, season } => (series.clone(), *season),
            _ => {
                return;
            },
        };
        if choice == 0 {
            let episode_id: i64 = episode.id;
            self.spawn_command(CommandKind::AutoSearch, Call::EpisodeSearch { episode_id });
        } else if choice == 1 {
            self.fetch_releases(episode.id);
            self.level = Level::Search { series, season, episode };
        }
    }

    /// Open the add-new screen: a fresh search box (focused) and the options
    /// of its form. Root folders and quality profiles rarely change, so they
    /// are only fetched when they are not there yet.
    pub fn enter_add(&mut self)
        ensures
            final(self)@ == old(self)@.enter_add(),
    {
        self.level = Level::Add;
        self.add.search.clear();
        self.add.search_focused = true;
        self.add.search.focused = true;
        self.add.results.clear();
        self.add.raw.clear();
        self.add.cursor = 0;
        self.add.form = None;
        self.add.submitting = false;
        self.status.loading = false;
        self.status.error = None;
        self.status.notice = None;
        if self.add.root_folders.len() == 0 || self.add.quality_profiles.len() == 0 {
            self.fetch_add_options();
        }
    }

    /// The first configured root folder's path, used to pre-fill the add
    /// form's editable root folder (empty when none is configured).
    fn default_root_folder(&self) -> (path: String)
        ensures
            path@ == self@.default_root(),
    {
        if self.add.root_folders.len() > 0 {
            self.add.root_folders[0].path.clone()
        } else {
            String::new()
        }
    }

    /// Owned quality-profile labels for the picker.
    fn quality_choices(&self) -> (labels: Vec<String>)
        ensures
            texts(labels@) == profile_names(self@.add.quality_profiles),
    {
        profile_labels(&self.add.quality_profiles)
    }

    /// Open the add form for the highlighted result; refuses if the options
    /// haven't loaded (or none are configured). Each field opens on a sensible
    /// default (first root folder, first quality profile, Standard type,
    /// season folders + monitored + search on).
    pub fn start_add_flow(&mut self)
        ensures
            final(self)@ == old(self)@.start_add_flow(),
    {
        if self.add.submitting {
            self.status.notice = Some("an add is already in progress");
            return;
        }
        if self.add.cursor >= self.add.results.len() {
            return;
        }
        if self.add.root_folders.len() == 0 || self.add.quality_profiles.len() == 0 {
            self.status.notice = Some(
                "add options unavailable: need a root folder and a quality profile",
            );
            return;
        }
        if self.add.cursor >= self.add.raw.len() {
            return;
        }
        let body: Value = copy_value(&self.add.raw[self.add.cursor]);
        let mut title: String = "Add series — ".to_owned();
        title.append(series_label(&self.add.results[self.add.cursor]).as_str());
        let fields: Vec<Field> = vec![
            Field::text(ROOT, "Root folder", self.default_root_folder().as_str()),
            Field::select(QUALITY, "Quality profile", self.quality_choices(), 0),
            Field::select(SERIES_TYPE_FIELD, "Series type", series_type_choices(), 0),
            Field::toggle(SEASON_FOLDER, "Use season folders?", true),
            Field::toggle(MONITORED, "Monitor this show?", true),
            Field::toggle(SEARCH, "Search & download now?", true),
        ];
        assert(field_models(fields@) =~= self@.add_fields());
        self.add.form = Some(
            ActiveForm { form: Form::new(fields, "Add"), mode: FormMode::Add { body }, title },
        );
    }

    /// Forward the add form's lookup object, augmented with the chosen fields.
    /// The whole object is forwarded (not a subset) because Sonarr requires
    /// fields that a series drops.
    fn commit_add(&mut self, body: Value, form: &Form)
        ensures
            final(self)@ == old(self)@.commit_add(body, form@),
    {
        // The root folder is typed; the quality profile is a pick from the
        // configured list.
        let root_folder: String = trim(form.text(ROOT).as_str());
        let choice: usize = form.selected(QUALITY);
        if root_folder.as_str().is_empty() || choice >= self.add.quality_profiles.len() {
            self.status.notice = Some("add cancelled: no root folder or quality profile");
            return;
        }
        let quality_profile_id: i64 = self.add.quality_profiles[choice].id;
        let kind: usize = form.selected(SERIES_TYPE_FIELD);
        let series_type: &'static str = if kind < SERIES_TYPE.len() {
            SERIES_TYPE[kind].1
        } else {
            "standard"
        };
        let body: Value = add_payload(
            &body,
            quality_profile_id,
            root_folder.as_str(),
            form.selected(MONITORED) == 0,
            form.selected(SEASON_FOLDER) == 0,
            series_type,
        );
        self.add.pending_search = form.selected(SEARCH) == 0;
        self.add.submitting = true;
        self.status.loading = true;
        self.status.error = None;
        self.status.notice = Some("adding...");
        let gen: u64 = self.allocate();
        self.gens.add = gen;
        self.send(Request::AddSeries { add_gen: gen, body });
    }

    /// The series an edit would be about, with its current values.
    fn editable(&self) -> (edit: Option<PendingEdit>)
        ensures
            edit == self@.editable(),
    {
        let series: Arc<Series> = match &self.level {
            Level::SeriesList => match self.selected_series() {
                Some(series) => series,
                None => {
                    return None;
                },
            },
            Level::Show { series } => series.clone(),
            _ => {
                return None;
            },
        };
        Some(
            PendingEdit {
                id: series.id,
                root: series.root_folder_path.clone(),
                quality: series.quality_profile_id,
                series_type: series.series_type.clone(),
                season_folder: series.season_folder,
            },
        )
    }

    /// Open the options form for the series under the cursor (list) or the one
    /// whose page is open, each field on the series' current value. When the
    /// pickers haven't loaded yet, they are fetched and the form opens by
    /// itself once they land.
    pub fn start_edit_flow(&mut self)
        ensures
            final(self)@ == old(self)@.start_edit_flow(),
    {
        let edit: PendingEdit = match self.editable() {
            Some(edit) => edit,
            None => {
                return;
            },
        };
        if self.add.root_folders.len() == 0 || self.add.quality_profiles.len() == 0 {
            self.add.pending_edit = Some(edit);
            self.fetch_add_options();
            self.status.loading = true;
            self.status.notice = Some("loading options...");
            return;
        }
        self.open_edit_form(edit);
    }

    /// Build and open the edit form. The move-files toggle starts hidden and
    /// is revealed once the root folder changes.
    fn open_edit_form(&mut self, edit: PendingEdit)
        ensures
            final(self)@ == old(self)@.open_edit_form(edit),
    {
        proof {
            reveal_strlit("");
            assert(""@ =~= Seq::<char>::empty());
        }
        let seed_quality: usize = match current_quality_index(
            self.add.quality_profiles.as_slice(),
            edit.quality,
        ) {
            Some(i) => i,
            None => 0,
        };
        let current: Option<&str> = match &edit.series_type {
            Some(current) => Some(current.as_str()),
            None => None,
        };
        let seed_type: usize = current_series_type_index(current);
        let mut title: String = "Edit options — ".to_owned();
        match find_series(&self.lists.all_series, edit.id) {
            Some(series) => {
                title.append(series_label(&series).as_str());
            },
            None => {
                title.append("series");
            },
        }
        let root: String = text_or(&edit.root, "");
        let fields: Vec<Field> = vec![
            Field::text(ROOT, "Root folder", root.as_str()),
            // Right after the root, since it only matters when the root
            // changes.
            Field::toggle(MOVE_FILES, "Move existing files?", false).hidden(),
            Field::select(QUALITY, "Quality profile", self.quality_choices(), seed_quality),
            Field::select(SERIES_TYPE_FIELD, "Series type", series_type_choices(), seed_type),
            Field::toggle(SEASON_FOLDER, "Use season folders?", edit.season_folder),
        ];
        assert(field_models(fields@) =~= self@.edit_fields(edit));
        let id: i64 = edit.id;
        self.add.form = Some(
            ActiveForm { form: Form::new(fields, "Save"), mode: FormMode::Edit { id }, title },
        );
    }

    /// Commit a form: dispatch to the add or edit path.
    fn commit_form(&mut self, active: ActiveForm)
        ensures
            final(self)@ == old(self)@.commit_form(active@),
    {
        self.add.form = None;
        match active.mode {
            FormMode::Edit { id } => self.commit_edit(id, &active.form),
            FormMode::Add { body } => self.commit_add(body, &active.form),
        }
    }

    /// Resolve each field to the value to send, sending only genuinely changed
    /// fields.
    fn commit_edit(&mut self, id: i64, form: &Form)
        ensures
            final(self)@ == old(self)@.commit_edit(id, form@),
    {
        let typed_root: String = trim(form.text(ROOT).as_str());
        let root_folder: Option<String> = if form.changed(ROOT) && !typed_root.as_str().is_empty() {
            Some(typed_root)
        } else {
            None
        };
        let choice: usize = form.selected(QUALITY);
        let quality_profile_id: Option<i64> = if form.changed(QUALITY) && choice
            < self.add.quality_profiles.len() {
            Some(self.add.quality_profiles[choice].id)
        } else {
            None
        };
        let kind: usize = form.selected(SERIES_TYPE_FIELD);
        let series_type: Option<&'static str> = if form.changed(SERIES_TYPE_FIELD) && kind
            < SERIES_TYPE.len() {
            Some(SERIES_TYPE[kind].1)
        } else {
            None
        };
        let season_folder: Option<bool> = if form.changed(SEASON_FOLDER) {
            Some(form.selected(SEASON_FOLDER) == 0)
        } else {
            None
        };
        // Guard on the resolved values, not the raw changed flags, so clearing
        // the root (or any other no-op) never sends an empty edit.
        if root_folder.is_none() && quality_profile_id.is_none() && series_type.is_none()
            && season_folder.is_none() {
            self.status.notice = Some("no changes");
            return;
        }
        let move_files: bool = form.selected(MOVE_FILES) == 0;
        let call: Call = Call::EditOptions {
            id,
            root_folder,
            move_files,
            quality_profile_id,
            series_type,
            season_folder,
        };
        self.spawn_command(CommandKind::SetOptions, call);
    }

    /// Flip the monitored flag on the item under the cursor: the selected
    /// series (series list), season (season list), or episode (episode list /
    /// episode-info view).
    pub fn toggle_monitored(&mut self)
        ensures
            final(self)@ == old(self)@.toggle_monitored(),
    {
        let call: Call = match &self.level {
            Level::SeriesList => match self.selected_series() {
                Some(series) => Call::SetSeriesMonitored {
                    id: series.id,
                    monitored: !series.monitored,
                },
                None => {
                    return;
                },
            },
            Level::Show { series } => match self.selected_season(series) {
                Some(season) => Call::SetSeasonMonitored {
                    series_id: series.id,
                    season_number: season.season_number,
                    monitored: !season.monitored,
                },
                None => {
                    return;
                },
            },
            Level::Episodes { .. } => match self.selected_episode() {
                Some(episode) => Call::SetEpisodeMonitored {
                    id: episode.id,
                    monitored: !episode.monitored,
                },
                None => {
                    return;
                },
            },
            Level::EpisodeDetail { episode, .. } => Call::SetEpisodeMonitored {
                id: episode.id,
                monitored: !episode.monitored,
            },
            _ => {
                return;
            },
        };
        self.spawn_command(CommandKind::SetMonitored, call);
    }
}

// Keys.

impl Browse {
    fn on_filter_key(&mut self, key: KeyEvent)
        ensures
            final(self)@ == old(self)@.filter_key(key),
    {
        match key.code {
            KeyCode::Esc => {
                self.filter.focused = false;
                self.filter.input.clear();
                self.filter.active = false;
                self.apply_filter();
            },
            KeyCode::Enter | KeyCode::Tab | KeyCode::BackTab | KeyCode::Up | KeyCode::Down => {
                self.filter.focused = false;
                if self.filter.input.value().is_empty() {
                    self.filter.active = false;
                }
            },
            _ => {
                if self.filter.input.on_key(key) {
                    self.apply_filter();
                }
            },
        }
        self.filter.input.focused = self.filter.focused;
    }

    /// The add-screen search box: enter runs the lookup, esc/tab/arrows just
    /// unfocus so the results can be navigated.
    fn on_add_search_key(&mut self, key: KeyEvent)
        ensures
            final(self)@ == old(self)@.add_search_key(key),
    {
        match key.code {
            KeyCode::Enter => {
                self.add.search_focused = false;
                let term: String = self.add.search.value().to_owned();
                self.fetch_lookup(term);
            },
            KeyCode::Esc | KeyCode::Tab | KeyCode::BackTab | KeyCode::Up | KeyCode::Down => {
                self.add.search_focused = false;
            },
            _ => {
                self.add.search.on_key(key);
            },
        }
        self.add.search.focused = self.add.search_focused;
    }

    /// The add/edit form is modal: while open it owns every key.
    fn on_form_key(&mut self, key: KeyEvent)
        requires
            old(self)@.add.form is Some,
            old(self)@.add.form->0.form.wf(),
        ensures
            final(self)@ == old(self)@.form_key(key),
    {
        let Some(mut active) = self.add.form.take() else {
            return;
        };
        match active.form.on_key(key) {
            FormEvent::Consumed => {
                self.add.form = Some(active);
            },
            FormEvent::Changed(id) => {
                // Edit only: reveal (and default to No) the move-files row
                // once the root folder differs from the series' current one.
                if id == ROOT && matches!(active.mode, FormMode::Edit { .. }) {
                    let moved: bool = active.form.changed(ROOT);
                    if !moved {
                        active.form.reset(MOVE_FILES);
                    }
                    active.form.set_visible(MOVE_FILES, moved);
                }
                self.add.form = Some(active);
            },
            FormEvent::Save => {
                self.commit_form(active);
            },
            // Edit returns to the series list/show, add to the results list;
            // the level is untouched either way.
            FormEvent::Cancel => {},
        }
    }

    /// The delete-downloads prompt is modal: toggles + commit/cancel.
    fn on_downloads_prompt_key(&mut self, key: KeyEvent)
        requires
            old(self)@.downloads.wf(),
        ensures
            final(self)@ == old(self)@.downloads_prompt_key(key.code),
    {
        if let downloads::DeleteAction::Commit { ids, remove_from_client, blocklist } =
            self.downloads.handle_prompt_key(key) {
            self.spawn_command(
                CommandKind::DeleteQueue,
                Call::DeleteQueueItems { ids, remove_from_client, blocklist },
            );
        }
    }

    fn on_confirm_key(&mut self, code: KeyCode)
        requires
            old(self)@.popups.confirm is Some,
        ensures
            final(self)@ == old(self)@.confirm_key(code),
    {
        match code {
            KeyCode::Char('y') | KeyCode::Char('Y') | KeyCode::Enter => {
                if let Some(confirm) = self.popups.confirm.take() {
                    self.execute_confirm(confirm);
                }
            },
            KeyCode::Char('n') | KeyCode::Char('N') | KeyCode::Esc | KeyCode::Char('q') => {
                self.popups.confirm = None;
            },
            _ => {},
        }
    }

    /// The delete-series prompt is modal. It goes back only when the key was
    /// merely consumed — commit and cancel both close it.
    fn on_delete_prompt_key(&mut self, key: KeyEvent)
        requires
            old(self)@.popups.delete_prompt is Some,
            old(self)@.popups.delete_prompt->0.wf(),
        ensures
            final(self)@ == old(self)@.delete_prompt_key(key.code),
    {
        if let Some(mut prompt) = self.popups.delete_prompt.take() {
            match prompt.handle_key(key) {
                DeleteAction::Commit { id, delete_files, add_exclusion } => {
                    self.spawn_command(
                        CommandKind::DeleteSeries(id),
                        Call::DeleteSeries { id, delete_files, add_exclusion },
                    );
                },
                DeleteAction::Cancelled => {},
                DeleteAction::Consumed => {
                    self.popups.delete_prompt = Some(prompt);
                },
            }
        }
    }

    fn on_sort_menu_key(&mut self, code: KeyCode, selected: usize)
        requires
            old(self)@.popups.sort_menu == Some(selected),
        ensures
            final(self)@ == old(self)@.sort_menu_key(code),
    {
        match code {
            KeyCode::Up => {
                self.popups.sort_menu = Some(selected.saturating_sub(1));
            },
            KeyCode::Down => {
                self.popups.sort_menu = Some(next_entry(selected, self.sort.count));
            },
            KeyCode::Enter => {
                self.popups.sort_menu = None;
                let sort: usize = if selected < self.sort.count {
                    selected
                } else {
                    0
                };
                if sort != self.sort.current {
                    self.sort.current = sort;
                    self.lists.series_cursor = 0;
                    self.apply_filter();
                    self.send(Request::Sort { sort });
                }
            },
            KeyCode::Esc | KeyCode::Char('q') | KeyCode::Char('v') => {
                self.popups.sort_menu = None;
            },
            _ => {},
        }
    }

    fn on_search_menu_key(&mut self, code: KeyCode)
        requires
            old(self)@.popups.search_menu is Some,
        ensures
            final(self)@ == old(self)@.search_menu_key(code),
    {
        let Some(menu) = self.popups.search_menu.take() else {
            return;
        };
        let SearchMenu { cursor, episode } = menu;
        match code {
            KeyCode::Up => {
                self.popups.search_menu = Some(
                    SearchMenu { cursor: cursor.saturating_sub(1), episode },
                );
            },
            KeyCode::Down => {
                self.popups.search_menu = Some(
                    SearchMenu { cursor: next_entry(cursor, SEARCH_MENU_OPTIONS.len()), episode },
                );
            },
            KeyCode::Enter => {
                self.on_search_menu_choice(cursor, episode);
            },
            KeyCode::Esc | KeyCode::Char('q') => {},
            _ => {
                self.popups.search_menu = Some(SearchMenu { cursor, episode });
            },
        }
    }

    fn on_rejections_key(&mut self, code: KeyCode, selected: usize)
        requires
            old(self)@.popups.rejections == Some(selected),
        ensures
            final(self)@ == old(self)@.rejections_key(code),
    {
        let count: usize = self.rejection_count();
        match code {
            KeyCode::Up => {
                self.popups.rejections = Some(selected.saturating_sub(1));
            },
            KeyCode::Down => {
                self.popups.rejections = Some(next_entry(selected, count));
            },
            KeyCode::Esc | KeyCode::Enter | KeyCode::Char('q') | KeyCode::Char('x') => {
                self.popups.rejections = None;
            },
            _ => {},
        }
    }

    /// `x` on the episode info: ask whether to delete the episode's file.
    fn on_info_x_key(&mut self)
        requires
            old(self)@.level is EpisodeDetail,
        ensures
            final(self)@ == old(self)@.info_key(KeyCode::Char('x')),
    {
        if let Level::EpisodeDetail { episode, .. } = &self.level {
            if let Some(file) = &episode.episode_file {
                self.popups.confirm = Some(Confirm::DeleteFile { file_id: file.id });
            }
        }
    }

    /// The episode-info view keeps the series header pinned and scrolls its
    /// body; it owns scroll, delete, and close keys while open.
    fn on_info_key(&mut self, code: KeyCode)
        requires
            old(self)@.level is EpisodeDetail,
        ensures
            final(self)@ == old(self)@.info_key(code),
    {
        let page: usize = if self.status.last_height > 5 {
            (self.status.last_height - 4) as usize
        } else {
            1
        };
        let scroll: usize = self.status.info_scroll;
        match code {
            KeyCode::Up => {
                self.status.info_scroll = scroll.saturating_sub(1);
            },
            KeyCode::Down => {
                self.status.info_scroll = scroll.saturating_add(1);
            },
            KeyCode::PageUp | KeyCode::Left => {
                self.status.info_scroll = scroll.saturating_sub(page);
            },
            KeyCode::PageDown | KeyCode::Right => {
                self.status.info_scroll = scroll.saturating_add(page);
            },
            KeyCode::Home | KeyCode::Char('g') => {
                self.status.info_scroll = 0;
            },
            KeyCode::End | KeyCode::Char('G') => {
                self.status.info_scroll = usize::MAX;
            },
            KeyCode::Char('x') => self.on_info_x_key(),
            KeyCode::Esc | KeyCode::Backspace | KeyCode::Char('i') => {
                self.pop_level();
                self.status.info_scroll = 0;
            },
            KeyCode::Char('m') => self.toggle_monitored(),
            KeyCode::Char('r') => self.refresh(),
            KeyCode::Char('?') => {
                self.status.show_full_help = !self.status.show_full_help;
            },
            _ => {},
        }
    }

    fn on_back_key(&mut self, code: KeyCode)
        ensures
            final(self)@ == old(self)@.back_key(code),
    {
        if !self.pop_level() && self.filter.active && code == KeyCode::Esc {
            self.filter.input.clear();
            self.filter.active = false;
            self.apply_filter();
        }
    }

    /// `/`: focus the filter of the list, or the search box of the add screen
    /// (with its results scrolled back to the top).
    fn on_slash_key(&mut self)
        ensures
            final(self)@ == old(self)@.slash_key(),
    {
        match &self.level {
            Level::SeriesList => {
                self.filter.active = true;
                self.filter.focused = true;
                self.filter.input.focused = true;
            },
            Level::Add => {
                self.add.search_focused = true;
                self.add.search.focused = true;
                self.add.cursor = 0;
            },
            _ => {},
        }
    }

    /// `i`: open the selected episode's info (description + file details),
    /// keeping the series header pinned.
    fn on_i_key(&mut self)
        ensures
            final(self)@ == old(self)@.i_key(),
    {
        let (series, season): (Arc<Series>, Season) = match &self.level {
            Level::Episodes { series, season } => (series.clone(), *season),
            _ => {
                return;
            },
        };
        if let Some(episode) = self.selected_episode() {
            self.status.info_scroll = 0;
            self.level = Level::EpisodeDetail { series, season, episode };
        }
    }

    /// `x`: show why a release was rejected, or remove downloads; deleting an
    /// episode file lives in the episode-info view.
    fn on_x_key(&mut self)
        ensures
            final(self)@ == old(self)@.x_key(),
    {
        match &self.level {
            Level::Search { .. } => {
                if self.rejection_count() > 0 {
                    self.popups.rejections = Some(0);
                }
            },
            Level::Downloads => {
                self.downloads.begin_delete(self.lists.queue.as_slice());
            },
            _ => {},
        }
    }

    /// `z`: ask whether to delete the series whose page is open.
    fn on_z_key(&mut self)
        ensures
            final(self)@ == old(self)@.z_key(),
    {
        if let Level::Show { series } = &self.level {
            let prompt = DeletePrompt::new(series.id, text_or(&series.title, "this series"));
            self.popups.delete_prompt = Some(prompt);
        }
    }

    fn open_downloads(&mut self)
        ensures
            final(self)@ == old(self)@.open_downloads(),
    {
        self.level = Level::Downloads;
        self.downloads.reset();
        self.fetch_queue();
    }

    fn on_level_key(&mut self, code: KeyCode)
        ensures
            final(self)@ == old(self)@.level_key(code),
    {
        match code {
            KeyCode::Up => self.move_cursor(Step::Up),
            KeyCode::Down => self.move_cursor(Step::Down),
            KeyCode::Char('d') => {
                if matches!(self.level, Level::SeriesList) {
                    self.open_downloads();
                }
            },
            KeyCode::PageUp | KeyCode::Left => self.move_cursor(Step::PageUp),
            KeyCode::PageDown | KeyCode::Right => self.move_cursor(Step::PageDown),
            KeyCode::Home | KeyCode::Char('g') => self.move_cursor(Step::Home),
            KeyCode::End | KeyCode::Char('G') => self.move_cursor(Step::End),
            KeyCode::Char('/') => self.on_slash_key(),
            KeyCode::Char('a') => {
                if matches!(self.level, Level::SeriesList) {
                    self.enter_add();
                }
            },
            KeyCode::Esc | KeyCode::Backspace => self.on_back_key(code),
            KeyCode::Enter => self.open_selected(),
            // On the Downloads level space marks the highlighted row instead
            // of opening anything.
            KeyCode::Char(' ') => {
                if matches!(self.level, Level::Downloads) {
                    self.downloads.toggle_mark(self.lists.queue.as_slice());
                } else {
                    self.open_selected();
                }
            },
            KeyCode::Char('v') => {
                if matches!(self.level, Level::SeriesList) {
                    self.popups.sort_menu = Some(
                        if self.sort.current < self.sort.count {
                            self.sort.current
                        } else {
                            0
                        },
                    );
                }
            },
            KeyCode::Char('i') => self.on_i_key(),
            KeyCode::Char('x') => self.on_x_key(),
            KeyCode::Char('z') => self.on_z_key(),
            KeyCode::Char('m') => self.toggle_monitored(),
            KeyCode::Char('o') => self.start_edit_flow(),
            KeyCode::Char('r') => self.refresh(),
            KeyCode::Char('?') => {
                self.status.show_full_help = !self.status.show_full_help;
            },
            _ => {},
        }
    }

    /// Whether a field, form, prompt or popup takes every key.
    fn is_modal(&self) -> (answer: bool)
        ensures
            answer == self@.is_modal(),
    {
        self.filter.focused || self.add.search_focused || self.add.form.is_some()
            || self.downloads.is_prompting() || self.popups.confirm.is_some()
            || self.popups.delete_prompt.is_some() || self.popups.sort_menu.is_some()
            || self.popups.search_menu.is_some() || self.popups.rejections.is_some()
    }

    /// Route a key. The fields come first, then the form, the prompts and the
    /// popups, each of which owns every key while it is open; ctrl- and
    /// alt-modified characters never fall through to single-letter shortcuts.
    pub fn on_key(&mut self, key: KeyEvent) -> (action: Option<BrowseAction>)
        requires
            old(self)@.wf(),
        ensures
            final(self)@ == old(self)@.after_key(key),
            final(self)@.wf(),
            action == (if old(self)@.quits(key) {
                Some(BrowseAction::Quit)
            } else {
                None
            }),
    {
        proof {
            law_keys_keep_the_screen_well_formed(self@, key);
        }
        if self.filter.focused {
            self.on_filter_key(key);
            return None;
        }
        if self.add.search_focused {
            self.on_add_search_key(key);
            return None;
        }
        if modified_char(&key) {
            return None;
        }
        let quits: bool = key.code == KeyCode::Char('q') && !self.is_modal();
        if self.add.form.is_some() {
            self.on_form_key(key);
        } else if self.downloads.is_prompting() {
            self.on_downloads_prompt_key(key);
        } else if self.popups.confirm.is_some() {
            self.on_confirm_key(key.code);
        } else if self.popups.delete_prompt.is_some() {
            self.on_delete_prompt_key(key);
        } else if let Some(selected) = self.popups.sort_menu {
            self.on_sort_menu_key(key.code, selected);
        } else if self.popups.search_menu.is_some() {
            self.on_search_menu_key(key.code);
        } else if let Some(selected) = self.popups.rejections {
            self.on_rejections_key(key.code, selected);
        } else if matches!(self.level, Level::EpisodeDetail { .. }) {
            self.on_info_key(key.code);
        } else {
            self.on_level_key(key.code);
        }
        if quits {
            Some(BrowseAction::Quit)
        } else {
            None
        }
    }

    /// True while the add-search box has focus, so the shell knows a keystroke
    /// is text input and not a global shortcut.
    pub fn input_focused(&self) -> (answer: bool)
        ensures
            answer == self@.add.search_focused,
    {
        self.add.search_focused
    }
}

// Ticks.

/// Queue items for a monitored series that were not present when its search
/// started.
fn queue_new_items(queue: &Vec<QueueItem>, monitor: &Monitor) -> (count: usize)
    ensures
        count == new_items(queue@, monitor@),
{
    let mut count: usize = 0;
    let mut i: usize = 0;
    while i < queue.len()
        invariant
            count <= i <= queue@.len(),
            count == new_items(queue@.take(i as int), monitor@),
        decreases queue@.len() - i,
    {
        assert(queue@.take(i + 1).drop_last() =~= queue@.take(i as int));
        if queue[i].series_id == Some(monitor.target_id) && !monitor.is_baseline(queue[i].id) {
            count += 1;
        }
        i += 1;
    }
    assert(queue@.take(i as int) =~= queue@);
    count
}

fn count_all(queue: &Vec<QueueItem>, monitors: &Vec<Monitor>) -> (counts: Vec<usize>)
    ensures
        counts@ == new_counts(queue@, monitors_view(monitors@)),
{
    let mut counts: Vec<usize> = Vec::new();
    let mut i: usize = 0;
    while i < monitors.len()
        invariant
            i <= monitors@.len(),
            counts@ == new_counts(queue@, monitors_view(monitors@)).take(i as int),
        decreases monitors@.len() - i,
    {
        counts.push(queue_new_items(queue, &monitors[i]));
        assert(counts@ =~= new_counts(queue@, monitors_view(monitors@)).take(i + 1));
        i += 1;
    }
    assert(counts@ =~= new_counts(queue@, monitors_view(monitors@)));
    counts
}

impl Browse {
    /// Advance every monitor one tick and leave the requests they make (poll a
    /// command, refresh the queue); expired monitors are dropped.
    fn tick_monitors(&mut self)
        ensures
            final(self)@ == old(self)@.tick_monitors(),
    {
        let mut monitors: Vec<Monitor> = Vec::new();
        std::mem::swap(&mut monitors, &mut self.monitors);
        let counts: Vec<usize> = count_all(&self.lists.queue, &monitors);
        let round: Round = tick_round(monitors, &counts);
        self.monitors = round.monitors;
        if round.want_queue {
            self.fetch_queue();
        }
        let poll_list: Vec<(u64, i64)> = round.polls;
        let ghost asked = self@;
        let mut k: usize = 0;
        assert(asked.outbox + poll_requests(poll_list@).take(0) =~= asked.outbox);
        while k < poll_list.len()
            invariant
                k <= poll_list@.len(),
                self@ == (BrowseModel {
                    outbox: asked.outbox + poll_requests(poll_list@).take(k as int),
                    ..asked
                }),
            decreases poll_list@.len() - k,
        {
            let (generation, command_id) = poll_list[k];
            self.send(Request::PollCommand { generation, command_id });
            proof {
                let all = poll_requests(poll_list@);
                assert(asked.outbox + all.take(k + 1) =~= (asked.outbox + all.take(k as int)).push(
                    all[k as int],
                ));
            }
            k += 1;
        }
        assert(poll_requests(poll_list@).take(k as int) =~= poll_requests(poll_list@));
    }

    /// Whether the current level shows download markers, so the periodic poll
    /// is worth running. The series list has none.
    pub fn should_poll_queue(&self) -> (answer: bool)
        ensures
            answer == self@.shows_queue(),
    {
        !matches!(self.level, Level::SeriesList)
    }

    /// Whether the (possibly backed-off) periodic poll interval has elapsed.
    pub fn queue_poll_due(&self) -> (answer: bool)
        ensures
            answer == self@.poll_due(),
    {
        let now: u32 = self.status.tick_count;
        let then: u32 = self.status.last_poll_tick;
        let passed: u32 = if now >= then {
            now - then
        } else {
            (u32::MAX - then) + now + 1
        };
        assert(passed == ticks_since(now, then));
        passed >= queue_poll_interval(self.status.queue_backoff)
    }

    /// One 250ms tick: the spinner turns, the queue is polled on its cadence
    /// (only while the tab is visible and the level shows markers: a hidden
    /// tab would otherwise poll the server forever), and the monitors advance.
    pub fn on_tick(&mut self)
        requires
            old(self)@.wf(),
        ensures
            final(self)@ == old(self)@.after_tick(),
            final(self)@.wf(),
    {
        proof {
            law_ticks_keep_the_screen_well_formed(self@, true);
        }
        if self.status.loading {
            self.status.spinner_frame = (self.status.spinner_frame + 1) % SPINNER_FRAMES;
        }
        self.status.tick_count = if self.status.tick_count == u32::MAX {
            0
        } else {
            self.status.tick_count + 1
        };
        if self.status.active && self.should_poll_queue() && self.queue_poll_due() {
            self.status.last_poll_tick = self.status.tick_count;
            self.fetch_queue();
        }
        self.tick_monitors();
    }

    /// Called by the app when this tab shows or hides. While hidden the
    /// periodic queue poll pauses; on return it resets the backoff and, if the
    /// level shows markers, refreshes them at once so they aren't left stale.
    pub fn set_active(&mut self, active: bool)
        ensures
            final(self)@ == old(self)@.with_active(active),
            old(self)@.wf() ==> final(self)@.wf(),
    {
        proof {
            if self@.wf() {
                law_ticks_keep_the_screen_well_formed(self@, active);
            }
        }
        let returning: bool = active && !self.status.active;
        self.status.active = active;
        if returning {
            self.status.queue_backoff = 0;
            self.status.last_poll_tick = self.status.tick_count;
            if self.should_poll_queue() {
                self.fetch_queue();
            }
        }
    }
}

// Answers.

/// The readable entries of a lookup: the series, and the objects they came in.
fn read_entries(entries: Vec<LookupEntry>) -> (r: (Vec<Arc<Series>>, Vec<Value>))
    ensures
        r.0@ == entry_series(entries@),
        r.1@ == entry_objects(entries@),
{
    let mut list: Vec<Arc<Series>> = Vec::new();
    let mut raw: Vec<Value> = Vec::new();
    let mut i: usize = 0;
    assert(entry_series(entries@.take(0)) =~= Seq::empty());
    assert(entry_objects(entries@.take(0)) =~= Seq::empty());
    while i < entries.len()
        invariant
            i <= entries@.len(),
            list@ == entry_series(entries@.take(i as int)),
            raw@ == entry_objects(entries@.take(i as int)),
        decreases entries@.len() - i,
    {
        assert(entries@.take(i + 1).drop_last() =~= entries@.take(i as int));
        if let Some(series) = &entries[i].series {
            list.push(series.clone());
            raw.push(copy_value(&entries[i].raw));
        }
        assert(list@ =~= entry_series(entries@.take(i + 1)));
        assert(raw@ =~= entry_objects(entries@.take(i + 1)));
        i += 1;
    }
    assert(entries@.take(i as int) =~= entries@);
    (list, raw)
}

impl Browse {
    fn fail(&mut self, err: Error)
        ensures
            final(self)@ == old(self)@.failed(err),
    {
        self.status.error = Some(err.message());
    }

    fn sync_level(&mut self, list: &Vec<Arc<Series>>)
        ensures
            final(self)@ == old(self)@.at(old(self)@.level_synced(list@)),
    {
        let level: Level = match &self.level {
            Level::Show { series } => match find_series(list, series.id) {
                Some(updated) => Level::Show { series: updated },
                None => {
                    return;
                },
            },
            Level::Episodes { series, season } => match find_series(list, series.id) {
                Some(updated) => Level::Episodes { series: updated, season: *season },
                None => {
                    return;
                },
            },
            Level::EpisodeDetail { series, season, episode } => match find_series(
                list,
                series.id,
            ) {
                Some(updated) => Level::EpisodeDetail {
                    series: updated,
                    season: *season,
                    episode: episode.clone(),
                },
                None => {
                    return;
                },
            },
            Level::Search { series, season, episode } => match find_series(list, series.id) {
                Some(updated) => Level::Search {
                    series: updated,
                    season: *season,
                    episode: episode.clone(),
                },
                None => {
                    return;
                },
            },
            _ => {
                return;
            },
        };
        self.level = level;
    }

    /// The series list, in the order of the current sort. Returns true when
    /// the server rejected the API key (the caller must drop to the setup
    /// screen). Staleness is checked first. A list refresh landing while the
    /// user is on the add screen must not touch that screen's state (the
    /// lookup owns it); a rejected key is still honoured.
    #[must_use]
    pub fn on_series_loaded(
        &mut self,
        fetch_gen: u64,
        result: Result<Vec<Arc<Series>>, Error>,
    ) -> (key_rejected: bool)
        ensures
            final(self)@ == old(self)@.after_series(fetch_gen, listed(result)),
            key_rejected == (fetch_gen == old(self)@.gens.fetch && rejected(result)),
            old(self)@.wf() ==> final(self)@.wf(),
    {
        proof {
            if self@.wf() {
                if let Ok(list) = &result {
                    assert(list.len() == list@.len());
                }
                law_series_keep_the_screen_well_formed(self@, fetch_gen, listed(result));
            }
        }
        if fetch_gen != self.gens.fetch {
            return false;
        }
        if matches!(self.level, Level::Add) {
            return matches!(result, Err(Error::Unauthorized));
        }
        self.status.loading = false;
        match result {
            Ok(list) => {
                // A reload with a show open must also refresh the copy the
                // header and season list render from.
                self.sync_level(&list);
                self.lists.all_series = list;
                self.apply_filter();
                let sort: usize = self.sort.current;
                self.send(Request::Sort { sort });
                false
            },
            Err(Error::Unauthorized) => true,
            Err(err) => {
                self.fail(err);
                false
            },
        }
    }

    /// The positions of the series list in the order of the chosen sort.
    pub fn on_sorted(&mut self, order: Vec<usize>)
        ensures
            final(self)@ == old(self)@.sorted(order@),
            old(self)@.wf() ==> final(self)@.wf(),
    {
        proof {
            if self@.wf() {
                assert(order.len() == order@.len());
                law_sorting_keeps_the_screen_well_formed(self@, order@);
            }
        }
        assert(self.lists.all_series.len() == self.lists.all_series@.len());
        if orders(&order, self.lists.all_series.len()) {
            self.lists.all_series = reorder(&self.lists.all_series, &order);
            self.apply_filter();
        }
    }

    fn sync_info(&mut self, list: &Vec<Arc<Episode>>)
        ensures
            final(self)@ == old(self)@.at(old(self)@.info_synced(list@)),
    {
        let level: Level = match &self.level {
            Level::EpisodeDetail { series, season, episode } => match find_episode(
                list,
                episode.id,
            ) {
                Some(updated) => Level::EpisodeDetail {
                    series: series.clone(),
                    season: *season,
                    episode: updated,
                },
                None => {
                    return;
                },
            },
            _ => {
                return;
            },
        };
        self.level = level;
    }

    /// Same contract as `on_series_loaded`. The episodes are shown by number.
    #[must_use]
    pub fn on_episodes_loaded(
        &mut self,
        fetch_gen: u64,
        result: Result<Vec<Arc<Episode>>, Error>,
    ) -> (key_rejected: bool)
        ensures
            final(self)@ == old(self)@.after_episodes(fetch_gen, listed(result)),
            key_rejected == (fetch_gen == old(self)@.gens.fetch && rejected(result)),
            old(self)@.wf() ==> final(self)@.wf(),
    {
        proof {
            if self@.wf() {
                law_quiet_answers_keep_the_screen_well_formed(
                    self@,
                    fetch_gen,
                    listed(result),
                    arbitrary(),
                    arbitrary(),
                    arbitrary(),
                    arbitrary(),
                    arbitrary(),
                );
            }
        }
        if fetch_gen != self.gens.fetch {
            return false;
        }
        self.status.loading = false;
        match result {
            Ok(list) => {
                let episodes: Vec<Arc<Episode>> = sort_episodes(list);
                // A reload with the episode-info view open must also refresh
                // the episode it renders from.
                self.sync_info(&episodes);
                self.lists.episodes = episodes;
                if self.lists.episode_cursor >= self.lists.episodes.len() {
                    self.lists.episode_cursor = 0;
                }
                false
            },
            Err(Error::Unauthorized) => true,
            Err(err) => {
                self.fail(err);
                false
            },
        }
    }

    /// Same contract as `on_series_loaded`. A failed poll is cosmetic (the
    /// markers just go stale until the next one) and must not stomp the screen
    /// with an error every 10 seconds; it makes the next poll come later.
    #[must_use]
    pub fn on_queue_loaded(
        &mut self,
        queue_gen: u64,
        result: Result<Vec<QueueItem>, Error>,
    ) -> (key_rejected: bool)
        ensures
            final(self)@ == old(self)@.after_queue(queue_gen, listed(result)),
            key_rejected == (queue_gen == old(self)@.gens.queue && rejected(result)),
            old(self)@.wf() ==> final(self)@.wf(),
    {
        proof {
            if self@.wf() {
                law_quiet_answers_keep_the_screen_well_formed(
                    self@,
                    queue_gen,
                    arbitrary(),
                    listed(result),
                    arbitrary(),
                    arbitrary(),
                    arbitrary(),
                    arbitrary(),
                );
            }
        }
        if queue_gen != self.gens.queue {
            return false;
        }
        self.status.queue_loading = false;
        match result {
            Ok(queue) => {
                self.lists.queue = queue;
                self.downloads.prune(self.lists.queue.as_slice());
                self.status.queue_backoff = 0;
                false
            },
            Err(Error::Unauthorized) => true,
            Err(_) => {
                self.status.queue_backoff = if self.status.queue_backoff
                    >= QUEUE_BACKOFF_MAX_SHIFT {
                    QUEUE_BACKOFF_MAX_SHIFT
                } else {
                    self.status.queue_backoff + 1
                };
                false
            },
        }
    }

    /// Same contract as `on_series_loaded`.
    #[must_use]
    pub fn on_releases_loaded(
        &mut self,
        fetch_gen: u64,
        result: Result<Vec<Release>, Error>,
    ) -> (key_rejected: bool)
        ensures
            final(self)@ == old(self)@.after_releases(fetch_gen, listed(result)),
            key_rejected == (fetch_gen == old(self)@.gens.fetch && rejected(result)),
            old(self)@.wf() ==> final(self)@.wf(),
    {
        proof {
            if self@.wf() {
                law_quiet_answers_keep_the_screen_well_formed(
                    self@,
                    fetch_gen,
                    arbitrary(),
                    arbitrary(),
                    listed(result),
                    arbitrary(),
                    arbitrary(),
                    arbitrary(),
                );
            }
        }
        if fetch_gen != self.gens.fetch {
            return false;
        }
        self.status.loading = false;
        match result {
            Ok(releases) => {
                self.lists.releases = releases;
                self.lists.release_cursor = 0;
                false
            },
            Err(Error::Unauthorized) => true,
            Err(err) => {
                self.fail(err);
                false
            },
        }
    }

    /// Same contract as `on_series_loaded`. A missing history only costs the
    /// "grabbed before" marker, so failures are not shown.
    #[must_use]
    pub fn on_history_loaded(
        &mut self,
        fetch_gen: u64,
        result: Result<Vec<HistoryRecord>, Error>,
    ) -> (key_rejected: bool)
        ensures
            final(self)@ == old(self)@.after_history(fetch_gen, listed(result)),
            key_rejected == (fetch_gen == old(self)@.gens.fetch && rejected(result)),
            old(self)@.wf() ==> final(self)@.wf(),
    {
        proof {
            if self@.wf() {
                law_quiet_answers_keep_the_screen_well_formed(
                    self@,
                    fetch_gen,
                    arbitrary(),
                    arbitrary(),
                    arbitrary(),
                    listed(result),
                    arbitrary(),
                    arbitrary(),
                );
            }
        }
        if fetch_gen != self.gens.fetch {
            return false;
        }
        match result {
            Ok(history) => {
                self.lists.history = history;
                false
            },
            Err(Error::Unauthorized) => true,
            Err(_) => false,
        }
    }

    fn leave_deleted(&mut self, deleted_id: i64)
        ensures
            final(self)@ == old(self)@.leave_deleted(deleted_id),
    {
        let viewing: bool = match &self.level {
            Level::Show { series } => series.id == deleted_id,
            Level::Episodes { series, .. } => series.id == deleted_id,
            Level::EpisodeDetail { series, .. } => series.id == deleted_id,
            Level::Search { series, .. } => series.id == deleted_id,
            _ => false,
        };
        if viewing {
            self.level = Level::SeriesList;
        }
    }

    /// A mutation succeeded: the notice is set after the refetch, which clears
    /// the notice row.
    fn on_success(&mut self, kind: CommandKind)
        ensures
            final(self)@ == old(self)@.after_success(kind),
    {
        match kind {
            CommandKind::AutoSearch => {
                self.status.notice = Some("search started; grabbed downloads appear in the queue");
                self.fetch_queue();
            },
            CommandKind::Grab => {
                self.pop_to_episodes();
                self.status.notice = Some("release sent to the download client");
            },
            CommandKind::DeleteFile => {
                self.pop_to_episodes();
                self.status.notice = Some("episode file deleted");
            },
            CommandKind::DeleteSeries(deleted_id) => {
                // Only leave the series' pages if the user is still on one: a
                // delete landing after they navigated to another series must
                // not yank them away.
                self.leave_deleted(deleted_id);
                self.fetch_series();
                self.fetch_queue();
                self.status.notice = Some("series deleted");
            },
            CommandKind::DeleteQueue => {
                self.downloads.clear_marks();
                self.fetch_queue();
                self.status.notice = Some("removed from queue");
            },
            CommandKind::SetMonitored => {
                // The flipped indicator is feedback enough, so no notice.
                self.refresh();
            },
            CommandKind::SetOptions => {
                self.refresh();
                self.status.notice = Some("options updated");
            },
        }
    }

    /// Unlike the list loaders, a command failure is surfaced even when
    /// superseded, and a rejected key is reported whatever the generation. A
    /// stale success is still dropped.
    #[must_use]
    pub fn on_command_done(
        &mut self,
        fetch_gen: u64,
        kind: CommandKind,
        result: Result<(), Error>,
    ) -> (key_rejected: bool)
        ensures
            final(self)@ == old(self)@.after_command(fetch_gen, kind, result),
            key_rejected == rejected(result),
            old(self)@.wf() ==> final(self)@.wf(),
    {
        proof {
            if self@.wf() {
                law_mutations_keep_the_screen_well_formed(self@, fetch_gen, kind, result);
            }
        }
        match result {
            Err(Error::Unauthorized) => true,
            Err(err) => {
                self.fail(err);
                // A newer fetch owns the spinner on the stale path.
                if fetch_gen == self.gens.fetch {
                    self.status.loading = false;
                }
                false
            },
            Ok(_) => {
                if fetch_gen == self.gens.fetch {
                    self.status.loading = false;
                    self.on_success(kind);
                }
                false
            },
        }
    }

    /// Lookup results. Checked against the lookup's own generation, so a lookup
    /// the user abandoned by leaving the add screen is dropped instead of
    /// surfacing an error on the list. Entries that hold no series are dropped
    /// from both lists, which keeps them aligned.
    #[must_use]
    pub fn on_lookup_loaded(
        &mut self,
        add_lookup_gen: u64,
        result: Result<Vec<LookupEntry>, Error>,
    ) -> (key_rejected: bool)
        ensures
            final(self)@ == old(self)@.after_lookup(add_lookup_gen, listed(result)),
            key_rejected == (add_lookup_gen == old(self)@.gens.add_lookup && rejected(result)),
            old(self)@.wf() ==> final(self)@.wf(),
    {
        proof {
            if self@.wf() {
                law_lookups_keep_the_screen_well_formed(self@, add_lookup_gen, listed(result));
            }
        }
        if add_lookup_gen != self.gens.add_lookup {
            return false;
        }
        self.status.loading = false;
        match result {
            Ok(entries) => {
                let (list, raw) = read_entries(entries);
                self.add.results = list;
                self.add.raw = raw;
                self.add.cursor = 0;
                false
            },
            Err(Error::Unauthorized) => true,
            Err(err) => {
                self.fail(err);
                false
            },
        }
    }

    fn end_wait(&mut self)
        ensures
            final(self)@ == old(self)@.wait_over(),
    {
        self.add.pending_edit = None;
        self.status.loading = false;
        self.status.notice = None;
    }

    /// The forms' options. A failure just leaves the pickers empty (the forms
    /// then refuse to open), so it is shown only where an edit was waiting.
    #[must_use]
    pub fn on_add_options_loaded(
        &mut self,
        prereq_gen: u64,
        result: Result<(Vec<RootFolder>, Vec<QualityProfile>), Error>,
    ) -> (key_rejected: bool)
        ensures
            final(self)@ == old(self)@.after_add_options(prereq_gen, options(result)),
            key_rejected == (prereq_gen == old(self)@.gens.add_prereq && rejected(result)),
            old(self)@.wf() ==> final(self)@.wf(),
    {
        proof {
            if self@.wf() {
                law_quiet_answers_keep_the_screen_well_formed(
                    self@,
                    prereq_gen,
                    arbitrary(),
                    arbitrary(),
                    arbitrary(),
                    arbitrary(),
                    options(result),
                    arbitrary(),
                );
            }
        }
        if prereq_gen != self.gens.add_prereq {
            return false;
        }
        match result {
            Ok((folders, profiles)) => {
                self.add.root_folders = folders;
                self.add.quality_profiles = profiles;
                // A deferred edit was waiting on these: open its form now,
                // unless the user has since left an editable level.
                if let Some(edit) = self.add.pending_edit.take() {
                    self.end_wait();
                    if matches!(self.level, Level::SeriesList | Level::Show { .. }) {
                        self.open_edit_form(edit);
                    }
                }
                false
            },
            Err(Error::Unauthorized) => true,
            Err(err) => {
                if self.add.pending_edit.is_some() {
                    self.end_wait();
                    self.fail(err);
                }
                false
            },
        }
    }

    fn open_added(&mut self, series: Arc<Series>)
        ensures
            final(self)@ == old(self)@.opened_added(series),
    {
        self.open_series(series);
        self.add.submitting = false;
        self.add.results.clear();
        self.add.raw.clear();
        self.add.search.clear();
        self.add.search_focused = false;
    }

    /// The add finished. On success the tracked search and the library refetch
    /// run wherever the user is by now; only one that is still awaited opens
    /// the new series' page.
    #[must_use]
    pub fn on_series_added(&mut self, add_gen: u64, result: Result<Arc<Series>, Error>) -> (
    key_rejected: bool)
        ensures
            final(self)@ == old(self)@.after_added(add_gen, result),
            key_rejected == (add_gen == old(self)@.gens.add && rejected(result)),
            old(self)@.wf() ==> final(self)@.wf(),
    {
        proof {
            if self@.wf() {
                law_adds_keep_the_screen_well_formed(self@, add_gen, result);
            }
        }
        let current: bool = add_gen == self.gens.add;
        match result {
            Ok(series) => {
                let pending_search: bool = self.add.pending_search;
                self.add.pending_search = false;
                if pending_search {
                    self.start_auto_search(series.id, series_label(&series));
                }
                if current {
                    self.open_added(series);
                }
                self.fetch_series();
                self.fetch_queue();
                if current {
                    self.status.notice = Some("series added");
                }
                false
            },
            Err(err) => {
                if !current {
                    return false;
                }
                self.add.pending_search = false;
                self.add.submitting = false;
                if matches!(err, Error::Unauthorized) {
                    return true;
                }
                // Stay on the results so the user can pick something else.
                self.status.loading = false;
                self.fail(err);
                false
            },
        }
    }

    /// A tracked search command was created (or failed to start).
    #[must_use]
    pub fn on_auto_search_started(
        &mut self,
        auto_search_gen: u64,
        result: Result<Command, Error>,
    ) -> (key_rejected: bool)
        ensures
            final(self)@ == old(self)@.after_search_started(auto_search_gen, result),
            key_rejected == rejects_key(old(self)@.monitors, auto_search_gen, result),
            old(self)@.wf() ==> final(self)@.wf(),
    {
        proof {
            if self@.wf() {
                law_quiet_answers_keep_the_screen_well_formed(
                    self@,
                    auto_search_gen,
                    arbitrary(),
                    arbitrary(),
                    arbitrary(),
                    arbitrary(),
                    arbitrary(),
                    result,
                );
            }
        }
        search_started(&mut self.monitors, auto_search_gen, result)
    }

    /// A status poll for a tracked command landed; on completion the queue is
    /// refreshed to confirm whether a release was grabbed.
    #[must_use]
    pub fn on_auto_search_polled(
        &mut self,
        auto_search_gen: u64,
        result: Result<Command, Error>,
    ) -> (key_rejected: bool)
        ensures
            final(self)@ == old(self)@.after_search_polled(auto_search_gen, result),
            key_rejected == rejects_key(old(self)@.monitors, auto_search_gen, result),
            old(self)@.wf() ==> final(self)@.wf(),
    {
        proof {
            if self@.wf() {
                law_quiet_answers_keep_the_screen_well_formed(
                    self@,
                    auto_search_gen,
                    arbitrary(),
                    arbitrary(),
                    arbitrary(),
                    arbitrary(),
                    arbitrary(),
                    result,
                );
            }
        }
        let (completed, key_rejected) = search_polled(
            &mut self.monitors,
            auto_search_gen,
            result,
        );
        if completed {
            self.fetch_queue();
        }
        key_rejected
    }

    /// The cross-tab status line summarising this app's auto-search monitors.
    pub fn status_line(&self) -> (line: Option<Vec<Span>>)
        ensures
            is_status_line("Sonarr"@, self@.monitors, shown_line(line)),
    {
        status_line("Sonarr", self.monitors.as_slice())
    }

    /// Take in the height of the screen before drawing. The background poll can
    /// shrink the queue under a stale cursor, so that is clamped too.
    pub fn before_draw(&mut self, height: u16)
        ensures
            final(self)@ == old(self)@.measured(height),
    {
        self.status.last_height = height;
        self.downloads.clamp(self.lists.queue.len());
    }

    /// Take back a scroll that went past the last page of the episode info.
    pub fn clamp_info(&mut self, lines: usize, height: usize)
        ensures
            final(self)@ == old(self)@.with_scroll(
                smaller(
                    old(self)@.status.info_scroll as int,
                    if lines > height {
                        lines - height
                    } else {
                        0
                    },
                ) as usize,
            ),
    {
        let max_scroll: usize = lines.saturating_sub(height);
        if self.status.info_scroll > max_scroll {
            self.status.info_scroll = max_scroll;
        }
    }
}

} // verus!
