//! The Radarr browse screen: movie list, movie detail (file info or status,
//! search entry point) and interactive search — a flat `Level` enum rather
//! than a stack, since every pop target is deterministic.
//!
//! The screen never waits: a key or a tick leaves [`Request`]s in the outbox,
//! which the program carries out, and their answers come back through the
//! `on_...` methods.

use serde_json::Value;
use std::collections::HashSet;
use std::sync::Arc;
use vstd::prelude::*;
use vstd::std_specs::hash::*;
use vstd::string::*;

use crate::app::{following_gen, modified_char, next_gen, KeyCode, KeyEvent};
use crate::apps::auto_search::{
    is_status_line, monitors_view, rejects_key, search_polled, search_started, shown_line,
    status_line, tick_round, Monitor, Round,
};
use crate::apps::delete_prompt::{DeleteAction, DeletePrompt};
use crate::apps::downloads;
use crate::apps::downloads::Downloads;
use crate::apps::radarr::laws::{
    law_keys_keep_the_screen_well_formed, law_screen_opens_well_formed,
    law_ticks_keep_the_screen_well_formed,
};
use crate::apps::radarr::msg::{requests, Call, CommandKind, Request};
use crate::apps::radarr::state::{
    add_body, entry_movies, entry_objects, listed, matching, movie_with_id, new_counts, new_items,
    options, poll_requests, queued_for, rejected, AddModel, BrowseModel, FilterModel, ListsModel,
    PopupsModel, StatusModel,
};
use crate::arr::models::{Command, HistoryRecord, QualityProfile, QueueItem, Release, RootFolder};
use crate::arr::Error;
use crate::json::{
    bool_value, copy_value, int_value, json_bool, json_int, json_members, json_object_of, json_text,
    object_of, set_member, text_value,
};
use crate::radarr::Movie;
use crate::text::{
    contains, decimal_int, is_blank, lowercase, occurs, opt_text, push_int, same_text, text_or,
    to_lowercase,
};
use crate::ui::input::TextInput;
use crate::ui::line::Span;
use crate::ui::list::{next_entry, orders, reorder, smaller, step_cursor, Step};

verus! {

broadcast use group_hash_axioms;

/// The frames of the busy indicator.
pub const SPINNER_FRAMES: usize = 8;

/// Queue polls fire every this many 250ms ticks (~10s). The movie list itself
/// shows download state, so polling runs on every level.
pub const QUEUE_POLL_TICKS: u32 = 40;

/// The entries of the search menu: auto search, interactive search, cancel.
pub const SEARCH_MENU_OPTIONS: [&'static str; 3] = ["Auto search", "Interactive search", "Cancel"];

/// Radarr's minimum availability options for the add wizard: (menu label, API
/// value).
pub const MIN_AVAILABILITY: [(&'static str, &'static str); 3] = [
    ("Announced", "announced"),
    ("In Cinemas", "inCinemas"),
    ("Released", "released"),
];

/// Where the user is inside the Radarr app. Pops are deterministic:
/// Search → MovieDetail → MovieList.
#[derive(Debug)]
pub enum Level {
    MovieList,
    /// Always entered on open, file or not; search starts from here.
    MovieDetail { movie: Arc<Movie> },
    /// Interactive search results for one movie (missing or upgrade).
    Search { movie: Arc<Movie> },
    /// Add a new movie: a persistent search box over the lookup and its
    /// results, from which the add wizard starts.
    Add,
    /// The download queue as a list the user can mark and remove from.
    Downloads,
}

/// A pending yes/no decision; modal while set.
#[derive(Debug, Clone, Copy, PartialEq, Eq, Structural)]
pub enum Confirm {
    DeleteFile { file_id: i64 },
    Grab { index: usize },
}

/// One step of the add wizard, in order; each opens pre-selected on a sensible
/// default (first root folder, a 1080p quality profile, "Released"
/// availability) that the user can still change.
#[derive(Debug, Clone, Copy, PartialEq, Eq, Structural)]
pub enum AddStep {
    RootFolder,
    QualityProfile,
    MinAvailability,
    Monitored,
    Download,
}

impl AddStep {
    /// The step after this one, or `None` to commit the add.
    pub open spec fn following(self) -> Option<AddStep> {
        match self {
            AddStep::RootFolder => Some(AddStep::QualityProfile),
            AddStep::QualityProfile => Some(AddStep::MinAvailability),
            AddStep::MinAvailability => Some(AddStep::Monitored),
            AddStep::Monitored => Some(AddStep::Download),
            AddStep::Download => None,
        }
    }

    /// The step after this one, or `None` to commit the add.
    pub fn next(self) -> (step: Option<AddStep>)
        ensures
            step == self.following(),
    {
        match self {
            AddStep::RootFolder => Some(AddStep::QualityProfile),
            AddStep::QualityProfile => Some(AddStep::MinAvailability),
            AddStep::MinAvailability => Some(AddStep::Monitored),
            AddStep::Monitored => Some(AddStep::Download),
            AddStep::Download => None,
        }
    }
}

/// The in-progress add wizard: which result is being added, the current step
/// with its selection cursor, and the choices gathered so far. Modal while
/// set.
#[derive(Debug)]
pub struct AddFlow {
    pub result: usize,
    pub step: AddStep,
    pub cursor: usize,
    pub root_folder: Option<String>,
    pub quality_profile_id: Option<i64>,
    pub min_availability: usize,
    pub monitored: bool,
    pub search: bool,
}

/// What the browse screen wants its parent (the Radarr app) to do.
#[derive(Debug, Clone, Copy, PartialEq, Eq, Structural)]
pub enum BrowseAction {
    Quit,
}

/// One entry of a lookup: the movie read from it, where it could be read, and
/// the object itself, which an add forwards whole.
#[derive(Debug)]
pub struct LookupEntry {
    pub movie: Option<Arc<Movie>>,
    pub raw: Value,
}

/// A movie's "Title (Year)" label.
pub open spec fn label_text(movie: Movie) -> Seq<char> {
    let title = match movie.title {
        Some(title) => title@,
        None => "movie"@,
    };
    if movie.year is Some && movie.year->0 > 0 {
        title + " ("@ + decimal_int(movie.year->0 as int) + ")"@
    } else {
        title
    }
}

/// A movie's "Title (Year)" label for the auto-search status line.
pub fn movie_label(movie: &Movie) -> (label: String)
    ensures
        label@ == label_text(*movie),
{
    let mut label: String = text_or(&movie.title, "movie");
    if let Some(year) = movie.year {
        if year > 0 {
            label.append(" (");
            push_int(&mut label, year as i64);
            label.append(")");
        }
    }
    label
}

/// Whether a profile is one of the common HD ones.
pub open spec fn is_1080(profile: QualityProfile) -> bool {
    occurs(lowercase(profile.name@), "1080"@)
}

/// The position of the first profile whose name contains "1080", or 0.
pub open spec fn preferred_quality(profiles: Seq<QualityProfile>) -> int {
    match first_1080(profiles) {
        Some(i) => i,
        None => 0,
    }
}

/// The position of the first profile whose name contains "1080".
pub open spec fn first_1080(profiles: Seq<QualityProfile>) -> Option<int>
    decreases profiles.len(),
{
    if profiles.len() == 0 {
        None
    } else {
        match first_1080(profiles.drop_last()) {
            Some(i) => Some(i),
            None => if is_1080(profiles.last()) {
                Some(profiles.len() - 1)
            } else {
                None
            },
        }
    }
}

proof fn lemma_first_1080_stays(profiles: Seq<QualityProfile>, n: int)
    requires
        0 <= n <= profiles.len(),
        first_1080(profiles.take(n)) is Some,
    ensures
        first_1080(profiles) == first_1080(profiles.take(n)),
    decreases profiles.len() - n,
{
    if n < profiles.len() {
        assert(profiles.take(n + 1).drop_last() =~= profiles.take(n));
        lemma_first_1080_stays(profiles, n + 1);
    } else {
        assert(profiles.take(n) =~= profiles);
    }
}

/// The add wizard pre-selects the first quality profile whose name contains
/// "1080" (case-insensitive) so the common HD choice needs no scrolling,
/// falling back to the first profile when none match.
pub fn preferred_quality_index(profiles: &[QualityProfile]) -> (index: usize)
    ensures
        index == preferred_quality(profiles@),
{
    let mut i: usize = 0;
    while i < profiles.len()
        invariant
            i <= profiles@.len(),
            first_1080(profiles@.take(i as int)) is None,
        decreases profiles@.len() - i,
    {
        assert(profiles@.take(i + 1).drop_last() =~= profiles@.take(i as int));
        let name: String = to_lowercase(profiles[i].name.as_str());
        if contains(name.as_str(), "1080") {
            proof {
                lemma_first_1080_stays(profiles@, i + 1);
            }
            return i;
        }
        i += 1;
    }
    assert(profiles@.take(i as int) =~= profiles@);
    0
}

/// Index of the "Released" minimum-availability option so the step opens on
/// it.
pub fn released_availability_index() -> (index: usize)
    ensures
        index == 2,
        MIN_AVAILABILITY@[index as int].1@ == "released"@,
{
    proof {
        reveal_strlit("announced");
        reveal_strlit("inCinemas");
        reveal_strlit("released");
    }
    let mut i: usize = 0;
    while i < MIN_AVAILABILITY.len()
        invariant
            i <= 2,
            "announced"@.len() == 9,
            "inCinemas"@.len() == 9,
            "released"@.len() == 8,
        decreases 3 - i,
    {
        if same_text(MIN_AVAILABILITY[i].1, "released") {
            return i;
        }
        i += 1;
    }
    0
}

/// The lists the levels show.
pub struct Lists {
    pub all_movies: Vec<Arc<Movie>>,
    /// Currently visible movies (filter applied).
    pub movies: Vec<Arc<Movie>>,
    pub movie_cursor: usize,
    pub releases: Vec<Release>,
    pub release_cursor: usize,
    /// Download queue, refreshed by the poll; drives every ↓ marker and the
    /// Downloads view.
    pub queue: Vec<QueueItem>,
    /// History of the movie currently being searched interactively.
    pub history: Vec<HistoryRecord>,
}

/// The title filter of the movie list.
pub struct Filter {
    pub input: TextInput,
    pub active: bool,
    pub focused: bool,
}

/// The order of the movie list.
#[derive(Debug, Clone, Copy, PartialEq, Eq, Structural)]
pub struct Sorting {
    /// The current sort, as a position among the program's sorts.
    pub current: usize,
    /// How many sorts there are.
    pub count: usize,
}

/// The popups; each is modal while set.
pub struct Popups {
    /// Sort popup cursor; `None` when closed.
    pub sort_menu: Option<usize>,
    /// "Auto search / Interactive search / Cancel" popup cursor.
    pub search_menu: Option<usize>,
    pub confirm: Option<Confirm>,
    /// The delete-movie prompt (files / import-list-exclusion toggles),
    /// opened with `z` on the detail.
    pub delete_prompt: Option<DeletePrompt>,
    /// Cursor into the selected release's rejection list; `None` when closed.
    pub rejections: Option<usize>,
}

/// The add screen: a persistent search box, its lookup results, the wizard
/// prerequisites, and the wizard itself when open.
pub struct AddScreen {
    pub search: TextInput,
    pub search_focused: bool,
    pub results: Vec<Arc<Movie>>,
    /// The lookup objects behind `results`, index-aligned; an add forwards the
    /// whole object, since the server wants fields that a movie drops.
    pub raw: Vec<Value>,
    pub cursor: usize,
    pub root_folders: Vec<RootFolder>,
    pub quality_profiles: Vec<QualityProfile>,
    /// An add is in flight; blocks a second submit until it lands.
    pub submitting: bool,
    pub flow: Option<AddFlow>,
    /// The just-committed add asked for an auto-search; read once it lands, to
    /// start a background monitor. Only one add is ever in flight.
    pub pending_search: bool,
}

/// The scrollable overview on the detail level.
#[derive(Debug, Clone, Copy, PartialEq, Eq, Structural)]
pub struct Overview {
    pub fullscreen: bool,
    pub scroll: usize,
}

/// What the chrome shows, and what it needs to know.
pub struct Status {
    pub loading: bool,
    /// A queue poll in flight; polls never overlap and never show a spinner.
    pub queue_loading: bool,
    pub error: Option<String>,
    /// One-line advisory (e.g. "search started"), shown in the error row when
    /// there is no error; cleared on the next fetch.
    pub notice: Option<&'static str>,
    pub has_fetched: bool,
    pub show_full_help: bool,
    pub tick_count: u32,
    pub spinner_frame: usize,
    /// Terminal height from the last draw, for page jumps and scroll clamps.
    pub last_height: u16,
}

/// The generations under which answers are awaited.
#[derive(Debug, Clone, Copy, PartialEq, Eq, Structural)]
pub struct Gens {
    /// The last generation handed out. A reconnect passes it on to the next
    /// screen, so a fetch still in flight can never collide with that one.
    pub counter: u64,
    /// The latest list fetch; older results are stale.
    pub fetch: u64,
    /// The latest queue poll, independent of list fetches.
    pub queue: u64,
    /// The latest lookup; bumped when the user leaves the add screen, so an
    /// abandoned lookup can't surface on the list.
    pub add_lookup: u64,
    /// The latest fetch of the wizard's prerequisites.
    pub add_prereq: u64,
    /// The latest add; bumped on leave, so a committed add never yanks the
    /// user back.
    pub add: u64,
}

/// The browse screen.
pub struct Browse {
    pub level: Level,
    pub lists: Lists,
    /// Selection + prompt state for the Downloads level.
    pub downloads: Downloads,
    pub filter: Filter,
    pub sort: Sorting,
    pub popups: Popups,
    pub add: AddScreen,
    /// Background auto-search monitors, one per add-with-search still
    /// resolving.
    pub monitors: Vec<Monitor>,
    pub overview: Overview,
    pub status: Status,
    pub gens: Gens,
    /// What the program is asked to do, in order.
    pub outbox: Vec<Request>,
}

impl View for Lists {
    type V = ListsModel;

    open spec fn view(&self) -> ListsModel {
        ListsModel {
            all_movies: self.all_movies@,
            movies: self.movies@,
            movie_cursor: self.movie_cursor,
            releases: self.releases@,
            release_cursor: self.release_cursor,
            queue: self.queue@,
            history: self.history@,
        }
    }
}

impl View for Filter {
    type V = FilterModel;

    open spec fn view(&self) -> FilterModel {
        FilterModel { input: self.input@, active: self.active, focused: self.focused }
    }
}

impl View for Popups {
    type V = PopupsModel;

    open spec fn view(&self) -> PopupsModel {
        PopupsModel {
            sort_menu: self.sort_menu,
            search_menu: self.search_menu,
            confirm: self.confirm,
            delete_prompt: match self.delete_prompt {
                Some(prompt) => Some(prompt@),
                None => None,
            },
            rejections: self.rejections,
        }
    }
}

impl View for AddScreen {
    type V = AddModel;

    open spec fn view(&self) -> AddModel {
        AddModel {
            search: self.search@,
            search_focused: self.search_focused,
            results: self.results@,
            raw: self.raw@,
            cursor: self.cursor,
            root_folders: self.root_folders@,
            quality_profiles: self.quality_profiles@,
            submitting: self.submitting,
            flow: self.flow,
            pending_search: self.pending_search,
        }
    }
}

impl View for Status {
    type V = StatusModel;

    open spec fn view(&self) -> StatusModel {
        StatusModel {
            loading: self.loading,
            queue_loading: self.queue_loading,
            error: opt_text(self.error),
            notice: self.notice,
            has_fetched: self.has_fetched,
            show_full_help: self.show_full_help,
            tick_count: self.tick_count,
            spinner_frame: self.spinner_frame,
            last_height: self.last_height,
        }
    }
}

impl View for Browse {
    type V = BrowseModel;

    open spec fn view(&self) -> BrowseModel {
        BrowseModel {
            level: self.level,
            lists: self.lists@,
            downloads: self.downloads@,
            filter: self.filter@,
            sort: self.sort,
            popups: self.popups@,
            add: self.add@,
            monitors: monitors_view(self.monitors@),
            overview: self.overview,
            status: self.status@,
            gens: self.gens,
            outbox: requests(self.outbox@),
        }
    }
}

/// The first movie of a list with an id.
pub(crate) fn find_movie(movies: &Vec<Arc<Movie>>, id: i64) -> (found: Option<Arc<Movie>>)
    ensures
        found == movie_with_id(movies@, id),
{
    let mut i: usize = 0;
    assert(movies@.skip(0) =~= movies@);
    while i < movies.len()
        invariant
            i <= movies@.len(),
            movie_with_id(movies@.skip(i as int), id) == movie_with_id(movies@, id),
        decreases movies@.len() - i,
    {
        if movies[i].id == id {
            return Some(movies[i].clone());
        }
        assert(movies@.skip(i as int).drop_first() =~= movies@.skip(i + 1));
        i += 1;
    }
    None
}

/// A second list of the same movies.
fn share_all(movies: &Vec<Arc<Movie>>) -> (list: Vec<Arc<Movie>>)
    ensures
        list@ == movies@,
{
    let mut list: Vec<Arc<Movie>> = Vec::new();
    let mut i: usize = 0;
    while i < movies.len()
        invariant
            i <= movies@.len(),
            list@ == movies@.take(i as int),
        decreases movies@.len() - i,
    {
        assert(movies@.take(i + 1) =~= movies@.take(i as int).push(movies@[i as int]));
        list.push(movies[i].clone());
        i += 1;
    }
    assert(movies@.take(i as int) =~= movies@);
    list
}

/// The movies that a filter text leaves visible.
fn filtered(movies: &Vec<Arc<Movie>>, needle: &str) -> (list: Vec<Arc<Movie>>)
    ensures
        list@ == matching(movies@, needle@),
{
    let mut list: Vec<Arc<Movie>> = Vec::new();
    let mut i: usize = 0;
    while i < movies.len()
        invariant
            i <= movies@.len(),
            list@ == matching(movies@.take(i as int), needle@),
        decreases movies@.len() - i,
    {
        assert(movies@.take(i + 1).drop_last() =~= movies@.take(i as int));
        let title: String = text_or(&movies[i].title, "");
        proof {
            reveal_strlit("");
            assert(""@ =~= Seq::<char>::empty());
        }
        if contains(to_lowercase(title.as_str()).as_str(), needle) {
            list.push(movies[i].clone());
        }
        i += 1;
    }
    assert(movies@.take(i as int) =~= movies@);
    list
}

/// The downloads a movie has in the queue.
fn queued_ids(queue: &Vec<QueueItem>, movie_id: i64) -> (ids: HashSet<i64>)
    ensures
        ids@ == queued_for(queue@, movie_id),
{
    let mut ids: HashSet<i64> = HashSet::new();
    let mut i: usize = 0;
    while i < queue.len()
        invariant
            i <= queue@.len(),
            ids@ == queued_for(queue@.take(i as int), movie_id),
        decreases queue@.len() - i,
    {
        assert(queue@.take(i + 1).drop_last() =~= queue@.take(i as int));
        if queue[i].movie_id == Some(movie_id) {
            ids.insert(queue[i].id);
        }
        i += 1;
    }
    assert(queue@.take(i as int) =~= queue@);
    ids
}

/// The object that adds a movie: the lookup object with the user's choices
/// set. Every other member of the lookup object is forwarded as it came.
pub fn add_payload(
    raw: &Value,
    quality_profile_id: i64,
    root_folder: &str,
    monitored: bool,
    availability: &str,
) -> (body: Value)
    ensures
        body == add_body(*raw, quality_profile_id, root_folder@, monitored, availability@),
        json_members(body) == match json_members(*raw) {
            Some(members) => Some(
                members.insert("qualityProfileId"@, json_int(quality_profile_id as int)).insert(
                    "rootFolderPath"@,
                    json_text(root_folder@),
                ).insert("monitored"@, json_bool(monitored)).insert(
                    "minimumAvailability"@,
                    json_text(availability@),
                ).insert(
                    "addOptions"@,
                    json_object_of("searchForMovie"@, json_bool(false)),
                ),
            ),
            None => None,
        },
{
    let mut body: Value = copy_value(raw);
    set_member(&mut body, "qualityProfileId", int_value(quality_profile_id));
    set_member(&mut body, "rootFolderPath", text_value(root_folder));
    set_member(&mut body, "monitored", bool_value(monitored));
    set_member(&mut body, "minimumAvailability", text_value(availability));
    set_member(&mut body, "addOptions", object_of("searchForMovie", bool_value(false)));
    body
}

impl Browse {
    /// Open the screen: the movie list and the queue are asked for at once,
    /// since the list shows ↓ markers from first paint.
    pub fn new(gen_counter: u64, sort_count: usize) -> (browse: Self)
        ensures
            browse@ == BrowseModel::initial(gen_counter, sort_count).fetch_movies().fetch_queue(),
            browse@.wf(),
    {
        proof {
            law_screen_opens_well_formed(gen_counter, sort_count);
        }
        let mut browse = Browse {
            level: Level::MovieList,
            lists: Lists {
                all_movies: Vec::new(),
                movies: Vec::new(),
                movie_cursor: 0,
                releases: Vec::new(),
                release_cursor: 0,
                queue: Vec::new(),
                history: Vec::new(),
            },
            downloads: Downloads::new(),
            filter: Filter { input: TextInput::new(), active: false, focused: false },
            sort: Sorting { current: 0, count: sort_count },
            popups: Popups {
                sort_menu: None,
                search_menu: None,
                confirm: None,
                delete_prompt: None,
                rejections: None,
            },
            add: AddScreen {
                search: TextInput::new(),
                search_focused: false,
                results: Vec::new(),
                raw: Vec::new(),
                cursor: 0,
                root_folders: Vec::new(),
                quality_profiles: Vec::new(),
                submitting: false,
                flow: None,
                pending_search: false,
            },
            monitors: Vec::new(),
            overview: Overview { fullscreen: false, scroll: 0 },
            status: Status {
                loading: false,
                queue_loading: false,
                error: None,
                notice: None,
                has_fetched: false,
                show_full_help: false,
                tick_count: 0,
                spinner_frame: 0,
                last_height: 24,
            },
            gens: Gens {
                counter: gen_counter,
                fetch: 0,
                queue: 0,
                add_lookup: 0,
                add_prereq: 0,
                add: 0,
            },
            outbox: Vec::new(),
        };
        proof {
            let start = BrowseModel::initial(gen_counter, sort_count);
            assert(browse@.outbox =~= start.outbox);
            assert(browse@.monitors =~= start.monitors);
        }
        browse.fetch_movies();
        browse.fetch_queue();
        browse
    }

    /// Hand the collected requests over.
    pub fn take_requests(&mut self) -> (list: Vec<Request>)
        ensures
            requests(list@) == old(self)@.outbox,
            final(self)@ == (BrowseModel { outbox: Seq::empty(), ..old(self)@ }),
    {
        let mut list: Vec<Request> = Vec::new();
        std::mem::swap(&mut list, &mut self.outbox);
        assert(requests(self.outbox@) =~= Seq::empty());
        list
    }

    fn send(&mut self, request: Request)
        ensures
            final(self)@ == old(self)@.sent(request@),
    {
        let ghost before = self.outbox@;
        self.outbox.push(request);
        assert(requests(self.outbox@) =~= requests(before).push(request@));
    }

    /// The next generation.
    fn allocate(&mut self) -> (gen: u64)
        ensures
            gen == next_gen(old(self).gens.counter),
            final(self)@ == (BrowseModel {
                gens: Gens { counter: gen, ..old(self).gens },
                ..old(self)@
            }),
    {
        self.gens.counter = following_gen(self.gens.counter);
        self.gens.counter
    }

    /// Mark a list fetch as started and allocate its generation; any result
    /// carrying an older generation is stale and dropped on arrival.
    fn begin_fetch(&mut self) -> (gen: u64)
        ensures
            final(self)@ == old(self)@.begin_fetch(),
            gen == final(self)@.gens.fetch,
    {
        self.status.loading = true;
        self.status.error = None;
        if self.status.has_fetched {
            self.status.notice = None;
        }
        self.status.has_fetched = true;
        let gen: u64 = self.allocate();
        self.gens.fetch = gen;
        gen
    }

    pub fn fetch_movies(&mut self)
        ensures
            final(self)@ == old(self)@.fetch_movies(),
    {
        let fetch_gen: u64 = self.begin_fetch();
        self.send(Request::Movies { fetch_gen });
    }

    /// One queue poll; skipped while another is in flight so a slow server
    /// never stacks requests.
    pub fn fetch_queue(&mut self)
        ensures
            final(self)@ == old(self)@.fetch_queue(),
    {
        if self.status.queue_loading {
            return;
        }
        self.status.queue_loading = true;
        let gen: u64 = self.allocate();
        self.gens.queue = gen;
        self.send(Request::Queue { queue_gen: gen });
    }

    /// Interactive search: releases and the movie's history fetched under one
    /// generation. The history only feeds the "grabbed before" marker, so it
    /// may trickle in after the releases.
    pub fn fetch_releases(&mut self, movie_id: i64)
        ensures
            final(self)@ == old(self)@.fetch_releases(movie_id),
    {
        let fetch_gen: u64 = self.begin_fetch();
        self.lists.releases.clear();
        self.lists.history.clear();
        self.lists.release_cursor = 0;
        self.send(Request::Releases { fetch_gen, movie_id });
        self.send(Request::History { fetch_gen, movie_id });
    }

    /// Run a mutation under the current view generation: if the user refetches
    /// or navigates somewhere that refetches before it lands, the result is
    /// stale and dropped.
    fn spawn_command(&mut self, kind: CommandKind, call: Call)
        ensures
            final(self)@ == old(self)@.spawn_command(kind, call@),
    {
        self.status.loading = true;
        let fetch_gen: u64 = self.gens.fetch;
        self.send(Request::Command { fetch_gen, kind, call });
    }

    pub fn fetch_add_options(&mut self)
        ensures
            final(self)@ == old(self)@.fetch_add_options(),
    {
        let gen: u64 = self.allocate();
        self.gens.add_prereq = gen;
        self.send(Request::AddOptions { prereq_gen: gen });
    }

    /// Run a lookup for the add screen; a blank term just clears the list.
    pub fn fetch_lookup(&mut self, term: String)
        ensures
            final(self)@ == old(self)@.fetch_lookup(term@),
    {
        if is_blank(term.as_str()) {
            self.add.results.clear();
            self.add.raw.clear();
            self.add.cursor = 0;
            return;
        }
        self.status.loading = true;
        self.status.error = None;
        let gen: u64 = self.allocate();
        self.gens.add_lookup = gen;
        self.send(Request::Lookup { add_lookup_gen: gen, term });
    }

    /// Start tracking a background auto-search for a just-added movie. The
    /// baseline snapshot lets the outcome check tell a fresh grab from a
    /// download that was already queued.
    fn start_auto_search(&mut self, movie_id: i64, title: String)
        ensures
            final(self)@ == old(self)@.start_auto_search(movie_id, title@),
    {
        let generation: u64 = self.allocate();
        let baseline: HashSet<i64> = queued_ids(&self.lists.queue, movie_id);
        let ghost before = self.monitors@;
        let monitor = Monitor::new(generation, movie_id, title, baseline);
        self.monitors.push(monitor);
        assert(monitors_view(self.monitors@) =~= monitors_view(before).push(monitor@));
        self.send(Request::AutoSearch { generation, movie_id });
    }

    pub fn apply_filter(&mut self)
        ensures
            final(self)@ == old(self)@.apply_filter(),
    {
        if !self.filter.active || self.filter.input.value().is_empty() {
            self.lists.movies = share_all(&self.lists.all_movies);
        } else {
            let needle: String = to_lowercase(self.filter.input.value());
            self.lists.movies = filtered(&self.lists.all_movies, needle.as_str());
        }
        if self.lists.movie_cursor >= self.lists.movies.len() {
            self.lists.movie_cursor = 0;
        }
    }

    pub fn selected_movie(&self) -> (movie: Option<Arc<Movie>>)
        ensures
            movie == self@.selected_movie(),
    {
        if self.lists.movie_cursor < self.lists.movies.len() {
            Some(self.lists.movies[self.lists.movie_cursor].clone())
        } else {
            None
        }
    }

    pub fn selected_release(&self) -> (release: Option<&Release>)
        ensures
            release is Some == self@.selected_release() is Some,
            release is Some ==> *release->0 == self@.selected_release()->0,
    {
        if self.lists.release_cursor < self.lists.releases.len() {
            Some(&self.lists.releases[self.lists.release_cursor])
        } else {
            None
        }
    }

    pub(crate) fn rejection_count(&self) -> (count: usize)
        ensures
            count == self@.rejection_count(),
            (count > 0) == self@.has_rejections(),
    {
        match self.selected_release() {
            Some(release) => release.rejections.len(),
            None => 0,
        }
    }

    /// The cursor of the current level's list, with the list length; `None`
    /// on the (list-less) movie detail.
    pub fn cursor_and_len(&self) -> (r: Option<(usize, usize)>)
        ensures
            r == self@.cursor_and_len(),
    {
        match &self.level {
            Level::MovieList => Some((self.lists.movie_cursor, self.lists.movies.len())),
            Level::MovieDetail { .. } => None,
            Level::Search { .. } => Some((self.lists.release_cursor, self.lists.releases.len())),
            Level::Add => Some((self.add.cursor, self.add.results.len())),
            Level::Downloads => Some((self.downloads.cursor, self.lists.queue.len())),
        }
    }

    fn move_cursor(&mut self, step: Step)
        ensures
            final(self)@ == old(self)@.move_cursor(step),
    {
        let jump: u16 = self.status.last_height / 5;
        let page: usize = if jump == 0 {
            1
        } else {
            jump as usize
        };
        if let Some((cursor, len)) = self.cursor_and_len() {
            let moved: usize = step_cursor(step, cursor, len, page);
            match &self.level {
                Level::MovieList => {
                    self.lists.movie_cursor = moved;
                },
                Level::MovieDetail { .. } => {},
                Level::Search { .. } => {
                    self.lists.release_cursor = moved;
                },
                Level::Add => {
                    self.add.cursor = moved;
                },
                Level::Downloads => {
                    self.downloads.cursor = moved;
                },
            }
        }
    }

    /// Return from the search level to the movie detail and refetch: the
    /// caller just changed server state.
    fn pop_to_detail(&mut self)
        ensures
            final(self)@ == old(self)@.pop_to_detail(),
    {
        let movie: Arc<Movie> = match &self.level {
            Level::Search { movie } => movie.clone(),
            _ => {
                return;
            },
        };
        self.fetch_movies();
        self.fetch_queue();
        self.level = Level::MovieDetail { movie };
    }

    pub fn open_selected(&mut self)
        ensures
            final(self)@ == old(self)@.open_selected(),
    {
        match &self.level {
            Level::MovieList => {
                if let Some(movie) = self.selected_movie() {
                    self.overview.scroll = 0;
                    self.level = Level::MovieDetail { movie };
                }
            },
            // Search is always offered here — Radarr grabs upgrades for
            // downloaded movies too.
            Level::MovieDetail { .. } => {
                self.popups.search_menu = Some(0);
            },
            Level::Search { .. } => {
                if self.selected_release().is_some() {
                    self.popups.confirm = Some(Confirm::Grab { index: self.lists.release_cursor });
                }
            },
            Level::Add => {
                self.start_add_flow();
            },
            // Nothing to open; space is intercepted earlier to toggle a mark.
            Level::Downloads => {},
        }
    }

    /// Pop one level; returns false at the movie list so the caller can give
    /// esc its list-level meaning (clear filter) instead.
    pub fn pop_level(&mut self) -> (popped: bool)
        ensures
            final(self)@ == old(self)@.pop_level(),
            popped == !(old(self)@.level is MovieList),
    {
        match &self.level {
            Level::MovieList => false,
            Level::Downloads => {
                self.level = Level::MovieList;
                self.downloads.reset();
                true
            },
            Level::MovieDetail { .. } => {
                self.level = Level::MovieList;
                self.overview.fullscreen = false;
                true
            },
            Level::Search { movie } => {
                let movie: Arc<Movie> = movie.clone();
                self.lists.releases.clear();
                self.lists.history.clear();
                self.level = Level::MovieDetail { movie };
                true
            },
            Level::Add => {
                self.level = Level::MovieList;
                self.add.results.clear();
                self.add.raw.clear();
                self.add.search.clear();
                self.add.search_focused = false;
                self.add.flow = None;
                self.add.submitting = false;
                // Supersede any in-flight lookup and add so a late result
                // can't surface an error on, or navigate away from, the list.
                let gen: u64 = self.allocate();
                self.gens.add_lookup = gen;
                let gen: u64 = self.allocate();
                self.gens.add = gen;
                self.status.loading = false;
                self.status.error = None;
                true
            },
        }
    }

    pub fn refresh(&mut self)
        ensures
            final(self)@ == old(self)@.refresh(),
    {
        match &self.level {
            Level::Downloads => {
                self.fetch_queue();
            },
            Level::MovieList | Level::MovieDetail { .. } => {
                self.fetch_movies();
                self.fetch_queue();
            },
            Level::Search { movie } => {
                let id: i64 = movie.id;
                self.fetch_releases(id);
            },
            Level::Add => {
                self.fetch_add_options();
                let term: String = self.add.search.value().to_owned();
                if !is_blank(term.as_str()) {
                    self.fetch_lookup(term);
                }
            },
        }
    }

    fn execute_confirm(&mut self, confirm: Confirm)
        ensures
            final(self)@ == old(self)@.execute_confirm(confirm),
    {
        match confirm {
            Confirm::DeleteFile { file_id } => {
                self.spawn_command(CommandKind::DeleteFile, Call::DeleteMovieFile { file_id });
            },
            Confirm::Grab { index } => {
                if index < self.lists.releases.len() {
                    let guid: String = self.lists.releases[index].guid.clone();
                    let indexer_id: i64 = self.lists.releases[index].indexer_id;
                    self.spawn_command(CommandKind::Grab, Call::GrabRelease { guid, indexer_id });
                }
            },
        }
    }

    fn on_search_menu_choice(&mut self, choice: usize)
        ensures
            final(self)@ == old(self)@.search_menu_choice(choice),
    {
        let movie: Arc<Movie> = match &self.level {
            Level::MovieDetail { movie } => movie.clone(),
            _ => {
                return;
            },
        };
        if choice == 0 {
            let movie_id: i64 = movie.id;
            self.spawn_command(CommandKind::AutoSearch, Call::MovieSearch { movie_id });
        } else if choice == 1 {
            self.fetch_releases(movie.id);
            self.level = Level::Search { movie };
        }
    }

    /// Open the add-new screen: a fresh search box (focused) and its wizard
    /// prerequisites. Root folders and quality profiles rarely change, so they
    /// are only fetched when they are not there yet.
    pub fn enter_add(&mut self)
        ensures
            final(self)@ == old(self)@.enter_add(),
    {
        self.level = Level::Add;
        self.add.search.clear();
        self.add.search_focused = true;
        self.add.search.focused = true;
        self.add.results.clear();
        self.add.raw.clear();
        self.add.cursor = 0;
        self.add.flow = None;
        self.add.submitting = false;
        self.status.loading = false;
        self.status.error = None;
        self.status.notice = None;
        if self.add.root_folders.len() == 0 || self.add.quality_profiles.len() == 0 {
            self.fetch_add_options();
        }
    }

    /// Open the add wizard for the highlighted result; refuses if the
    /// prerequisites haven't loaded (or none are configured).
    pub fn start_add_flow(&mut self)
        ensures
            final(self)@ == old(self)@.start_add_flow(),
    {
        if self.add.submitting {
            self.status.notice = Some("an add is already in progress");
            return;
        }
        if self.add.cursor >= self.add.results.len() {
            return;
        }
        if self.add.root_folders.len() == 0 || self.add.quality_profiles.len() == 0 {
            self.status.notice = Some("add options unavailable: need a root folder and a quality profile");
            return;
        }
        self.add.flow = Some(
            AddFlow {
                result: self.add.cursor,
                step: AddStep::RootFolder,
                cursor: 0,
                root_folder: None,
                quality_profile_id: None,
                min_availability: released_availability_index(),
                monitored: true,
                search: true,
            },
        );
    }

    /// How many options the wizard's current step has.
    pub fn add_step_option_count(&self) -> (count: usize)
        ensures
            count == self@.add_step_options(),
    {
        match &self.add.flow {
            None => 0,
            Some(flow) => match flow.step {
                AddStep::RootFolder => self.add.root_folders.len(),
                AddStep::QualityProfile => self.add.quality_profiles.len(),
                AddStep::MinAvailability => MIN_AVAILABILITY.len(),
                AddStep::Monitored | AddStep::Download => 2,
            },
        }
    }

    /// Record the current step's selection and move to the next; commit once
    /// the last step is answered.
    pub fn advance_add_flow(&mut self)
        ensures
            final(self)@ == old(self)@.advance_add_flow(),
    {
        let Some(mut flow) = self.add.flow.take() else {
            return;
        };
        let cursor: usize = flow.cursor;
        match flow.step {
            AddStep::RootFolder => {
                flow.root_folder = if cursor < self.add.root_folders.len() {
                    Some(self.add.root_folders[cursor].path.clone())
                } else {
                    None
                };
            },
            AddStep::QualityProfile => {
                flow.quality_profile_id = if cursor < self.add.quality_profiles.len() {
                    Some(self.add.quality_profiles[cursor].id)
                } else {
                    None
                };
            },
            AddStep::MinAvailability => {
                flow.min_availability = cursor;
            },
            AddStep::Monitored => {
                flow.monitored = cursor == 0;
            },
            AddStep::Download => {
                flow.search = cursor == 0;
            },
        }
        match flow.step.next() {
            Some(next) => {
                // Open each step on its smart default; unlisted steps start at
                // their first option.
                flow.cursor = match next {
                    AddStep::QualityProfile => preferred_quality_index(
                        self.add.quality_profiles.as_slice(),
                    ),
                    AddStep::MinAvailability => released_availability_index(),
                    _ => 0,
                };
                flow.step = next;
                self.add.flow = Some(flow);
            },
            None => {
                self.add.flow = Some(flow);
                self.commit_add();
            },
        }
    }

    /// Forward the finished wizard's lookup object, augmented with the user's
    /// choices. The whole object is forwarded (not a subset) because Radarr
    /// requires fields that a movie drops.
    pub fn commit_add(&mut self)
        ensures
            final(self)@ == old(self)@.commit_add(),
    {
        let Some(flow) = self.add.flow.take() else {
            return;
        };
        // Both required choices must have resolved; if a prerequisite list was
        // empty under the cursor the payload would carry nulls.
        let (Some(root_folder), Some(quality_profile_id)) = (
            flow.root_folder,
            flow.quality_profile_id,
        ) else {
            self.status.notice = Some("add cancelled: no root folder or quality profile");
            return;
        };
        if flow.result >= self.add.raw.len() {
            return;
        }
        let availability: &'static str = if flow.min_availability < MIN_AVAILABILITY.len() {
            MIN_AVAILABILITY[flow.min_availability].1
        } else {
            "announced"
        };
        let body: Value = add_payload(
            &self.add.raw[flow.result],
            quality_profile_id,
            root_folder.as_str(),
            flow.monitored,
            availability,
        );
        self.add.pending_search = flow.search;
        self.add.submitting = true;
        self.status.loading = true;
        self.status.error = None;
        self.status.notice = Some("adding...");
        let gen: u64 = self.allocate();
        self.gens.add = gen;
        self.send(Request::AddMovie { add_gen: gen, body });
    }
}

// Keys.

impl Browse {
    fn on_filter_key(&mut self, key: KeyEvent)
        ensures
            final(self)@ == old(self)@.filter_key(key),
    {
        match key.code {
            KeyCode::Esc => {
                self.filter.focused = false;
                self.filter.input.clear();
                self.filter.active = false;
                self.apply_filter();
            },
            KeyCode::Enter | KeyCode::Tab | KeyCode::BackTab | KeyCode::Up | KeyCode::Down => {
                self.filter.focused = false;
                if self.filter.input.value().is_empty() {
                    self.filter.active = false;
                }
            },
            _ => {
                if self.filter.input.on_key(key) {
                    self.apply_filter();
                }
            },
        }
        self.filter.input.focused = self.filter.focused;
    }

    /// The add-screen search box: enter runs the lookup, esc/tab/arrows just
    /// unfocus so the results can be navigated.
    fn on_add_search_key(&mut self, key: KeyEvent)
        ensures
            final(self)@ == old(self)@.add_search_key(key),
    {
        match key.code {
            KeyCode::Enter => {
                self.add.search_focused = false;
                let term: String = self.add.search.value().to_owned();
                self.fetch_lookup(term);
            },
            KeyCode::Esc | KeyCode::Tab | KeyCode::BackTab | KeyCode::Up | KeyCode::Down => {
                self.add.search_focused = false;
            },
            _ => {
                self.add.search.on_key(key);
            },
        }
        self.add.search.focused = self.add.search_focused;
    }

    /// The add wizard is modal: while open it owns every key.
    fn on_wizard_key(&mut self, code: KeyCode)
        requires
            old(self)@.add.flow is Some,
        ensures
            final(self)@ == old(self)@.wizard_key(code),
    {
        let count: usize = self.add_step_option_count();
        match code {
            KeyCode::Up | KeyCode::Char('k') => {
                if let Some(mut flow) = self.add.flow.take() {
                    flow.cursor = flow.cursor.saturating_sub(1);
                    self.add.flow = Some(flow);
                }
            },
            KeyCode::Down | KeyCode::Char('j') => {
                if let Some(mut flow) = self.add.flow.take() {
                    flow.cursor = next_entry(flow.cursor, count);
                    self.add.flow = Some(flow);
                }
            },
            KeyCode::Enter => {
                self.advance_add_flow();
            },
            KeyCode::Esc | KeyCode::Char('q') => {
                self.add.flow = None;
            },
            _ => {},
        }
    }

    /// The delete-downloads prompt is modal: toggles + commit/cancel.
    fn on_downloads_prompt_key(&mut self, key: KeyEvent)
        requires
            old(self)@.downloads.wf(),
        ensures
            final(self)@ == old(self)@.downloads_prompt_key(key.code),
    {
        if let downloads::DeleteAction::Commit { ids, remove_from_client, blocklist } =
            self.downloads.handle_prompt_key(key) {
            self.spawn_command(
                CommandKind::DeleteQueue,
                Call::DeleteQueueItems { ids, remove_from_client, blocklist },
            );
        }
    }

    fn on_confirm_key(&mut self, code: KeyCode)
        requires
            old(self)@.popups.confirm is Some,
        ensures
            final(self)@ == old(self)@.confirm_key(code),
    {
        match code {
            KeyCode::Char('y') | KeyCode::Char('Y') | KeyCode::Enter => {
                if let Some(confirm) = self.popups.confirm.take() {
                    self.execute_confirm(confirm);
                }
            },
            KeyCode::Char('n') | KeyCode::Char('N') | KeyCode::Esc | KeyCode::Char('q') => {
                self.popups.confirm = None;
            },
            _ => {},
        }
    }

    /// The delete-movie prompt is modal. It goes back only when the key was
    /// merely consumed — commit and cancel both close it.
    fn on_delete_prompt_key(&mut self, key: KeyEvent)
        requires
            old(self)@.popups.delete_prompt is Some,
            old(self)@.popups.delete_prompt->0.wf(),
        ensures
            final(self)@ == old(self)@.delete_prompt_key(key.code),
    {
        if let Some(mut prompt) = self.popups.delete_prompt.take() {
            match prompt.handle_key(key) {
                DeleteAction::Commit { id, delete_files, add_exclusion } => {
                    self.spawn_command(
                        CommandKind::DeleteMovie(id),
                        Call::DeleteMovie { id, delete_files, add_exclusion },
                    );
                },
                DeleteAction::Cancelled => {},
                DeleteAction::Consumed => {
                    self.popups.delete_prompt = Some(prompt);
                },
            }
        }
    }

    fn on_sort_menu_key(&mut self, code: KeyCode, selected: usize)
        requires
            old(self)@.popups.sort_menu == Some(selected),
        ensures
            final(self)@ == old(self)@.sort_menu_key(code),
    {
        match code {
            KeyCode::Up | KeyCode::Char('k') => {
                self.popups.sort_menu = Some(selected.saturating_sub(1));
            },
            KeyCode::Down | KeyCode::Char('j') => {
                self.popups.sort_menu = Some(next_entry(selected, self.sort.count));
            },
            KeyCode::Enter => {
                self.popups.sort_menu = None;
                let sort: usize = if selected < self.sort.count {
                    selected
                } else {
                    0
                };
                if sort != self.sort.current {
                    self.sort.current = sort;
                    self.lists.movie_cursor = 0;
                    self.apply_filter();
                    self.send(Request::Sort { sort });
                }
            },
            KeyCode::Esc | KeyCode::Char('q') | KeyCode::Char('s') => {
                self.popups.sort_menu = None;
            },
            _ => {},
        }
    }

    fn on_search_menu_key(&mut self, code: KeyCode, selected: usize)
        requires
            old(self)@.popups.search_menu == Some(selected),
        ensures
            final(self)@ == old(self)@.search_menu_key(code),
    {
        match code {
            KeyCode::Up | KeyCode::Char('k') => {
                self.popups.search_menu = Some(selected.saturating_sub(1));
            },
            KeyCode::Down | KeyCode::Char('j') => {
                self.popups.search_menu = Some(next_entry(selected, SEARCH_MENU_OPTIONS.len()));
            },
            KeyCode::Enter => {
                self.popups.search_menu = None;
                self.on_search_menu_choice(selected);
            },
            KeyCode::Esc | KeyCode::Char('q') => {
                self.popups.search_menu = None;
            },
            _ => {},
        }
    }

    fn on_rejections_key(&mut self, code: KeyCode, selected: usize)
        requires
            old(self)@.popups.rejections == Some(selected),
        ensures
            final(self)@ == old(self)@.rejections_key(code),
    {
        let count: usize = self.rejection_count();
        match code {
            KeyCode::Up | KeyCode::Char('k') => {
                self.popups.rejections = Some(selected.saturating_sub(1));
            },
            KeyCode::Down | KeyCode::Char('j') => {
                self.popups.rejections = Some(next_entry(selected, count));
            },
            KeyCode::Esc | KeyCode::Enter | KeyCode::Char('q') | KeyCode::Char('x') => {
                self.popups.rejections = None;
            },
            _ => {},
        }
    }

    /// Full-screen overview scrolls; everything else is closed off.
    fn on_overview_key(&mut self, code: KeyCode)
        ensures
            final(self)@ == old(self)@.overview_key(code),
    {
        let page: usize = if self.status.last_height > 5 {
            (self.status.last_height - 4) as usize
        } else {
            1
        };
        match code {
            KeyCode::Up | KeyCode::Char('k') => {
                self.overview.scroll = self.overview.scroll.saturating_sub(1);
            },
            KeyCode::Down | KeyCode::Char('j') => {
                self.overview.scroll = self.overview.scroll.saturating_add(1);
            },
            KeyCode::PageUp | KeyCode::Char('b') | KeyCode::Char('u') => {
                self.overview.scroll = self.overview.scroll.saturating_sub(page);
            },
            KeyCode::PageDown | KeyCode::Char('f') | KeyCode::Char('d') => {
                self.overview.scroll = self.overview.scroll.saturating_add(page);
            },
            KeyCode::Home | KeyCode::Char('g') => {
                self.overview.scroll = 0;
            },
            KeyCode::Esc | KeyCode::Backspace | KeyCode::Char('v') => {
                self.overview.fullscreen = false;
                self.overview.scroll = 0;
            },
            _ => {},
        }
    }

    fn on_back_key(&mut self, code: KeyCode)
        ensures
            final(self)@ == old(self)@.back_key(code),
    {
        if !self.pop_level() && self.filter.active && code == KeyCode::Esc {
            self.filter.input.clear();
            self.filter.active = false;
            self.apply_filter();
        }
    }

    /// `x`: delete the file of the detail's movie, show why a release was
    /// rejected, or remove downloads.
    fn on_x_key(&mut self)
        ensures
            final(self)@ == old(self)@.x_key(),
    {
        match &self.level {
            Level::MovieDetail { movie } => {
                if let Some(file) = &movie.movie_file {
                    self.popups.confirm = Some(Confirm::DeleteFile { file_id: file.id });
                }
            },
            Level::Search { .. } => {
                if self.rejection_count() > 0 {
                    self.popups.rejections = Some(0);
                }
            },
            Level::Downloads => {
                self.downloads.begin_delete(self.lists.queue.as_slice());
            },
            _ => {},
        }
    }

    /// `z`: ask whether to delete the detail's movie.
    fn on_z_key(&mut self)
        ensures
            final(self)@ == old(self)@.z_key(),
    {
        if let Level::MovieDetail { movie } = &self.level {
            let prompt = DeletePrompt::new(movie.id, text_or(&movie.title, "this movie"));
            self.popups.delete_prompt = Some(prompt);
        }
    }

    /// `d`: open the downloads from the list; a page down everywhere else.
    fn on_d_key(&mut self)
        ensures
            final(self)@ == old(self)@.level_key(KeyCode::Char('d')),
    {
        if matches!(self.level, Level::MovieList) {
            self.level = Level::Downloads;
            self.downloads.reset();
            self.fetch_queue();
        } else {
            self.move_cursor(Step::PageDown);
        }
    }

    /// `/`: focus the filter of the list, or the search box of the add screen
    /// (with its results scrolled back to the top).
    fn on_slash_key(&mut self)
        ensures
            final(self)@ == old(self)@.level_key(KeyCode::Char('/')),
    {
        match &self.level {
            Level::MovieList => {
                self.filter.active = true;
                self.filter.focused = true;
                self.filter.input.focused = true;
            },
            Level::Add => {
                self.add.search_focused = true;
                self.add.search.focused = true;
                self.add.cursor = 0;
            },
            _ => {},
        }
    }

    fn on_level_key(&mut self, code: KeyCode)
        ensures
            final(self)@ == old(self)@.level_key(code),
    {
        match code {
            KeyCode::Up | KeyCode::Char('k') => self.move_cursor(Step::Up),
            KeyCode::Down | KeyCode::Char('j') => self.move_cursor(Step::Down),
            KeyCode::Char('d') => self.on_d_key(),
            KeyCode::PageUp | KeyCode::Char('b') | KeyCode::Char('u') => self.move_cursor(
                Step::PageUp,
            ),
            KeyCode::PageDown | KeyCode::Char('f') => self.move_cursor(Step::PageDown),
            KeyCode::Home | KeyCode::Char('g') => self.move_cursor(Step::Home),
            KeyCode::End | KeyCode::Char('G') => self.move_cursor(Step::End),
            KeyCode::Char('/') => self.on_slash_key(),
            KeyCode::Char('a') => {
                if matches!(self.level, Level::MovieList) {
                    self.enter_add();
                }
            },
            KeyCode::Esc | KeyCode::Backspace => self.on_back_key(code),
            KeyCode::Enter => self.open_selected(),
            // On the Downloads level space marks the highlighted row instead
            // of opening anything.
            KeyCode::Char(' ') => {
                if matches!(self.level, Level::Downloads) {
                    self.downloads.toggle_mark(self.lists.queue.as_slice());
                } else {
                    self.open_selected();
                }
            },
            KeyCode::Char('s') => {
                if matches!(self.level, Level::MovieList) {
                    self.popups.sort_menu = Some(
                        if self.sort.current < self.sort.count {
                            self.sort.current
                        } else {
                            0
                        },
                    );
                }
            },
            KeyCode::Char('v') => {
                if matches!(self.level, Level::MovieDetail { .. }) {
                    self.overview = Overview { fullscreen: true, scroll: 0 };
                }
            },
            KeyCode::Char('x') => self.on_x_key(),
            KeyCode::Char('z') => self.on_z_key(),
            KeyCode::Char('r') => self.refresh(),
            KeyCode::Char('?') => {
                self.status.show_full_help = !self.status.show_full_help;
            },
            _ => {},
        }
    }

    /// Whether a field, wizard, prompt or popup takes every key.
    fn is_modal(&self) -> (answer: bool)
        ensures
            answer == self@.is_modal(),
    {
        self.filter.focused || self.add.search_focused || self.add.flow.is_some()
            || self.downloads.is_prompting() || self.popups.confirm.is_some()
            || self.popups.delete_prompt.is_some() || self.popups.sort_menu.is_some()
            || self.popups.search_menu.is_some() || self.popups.rejections.is_some()
    }

    /// Route a key. The fields come first, then the wizard, the prompts and
    /// the popups, each of which owns every key while it is open; ctrl- and
    /// alt-modified characters never fall through to single-letter shortcuts.
    pub fn on_key(&mut self, key: KeyEvent) -> (action: Option<BrowseAction>)
        requires
            old(self)@.wf(),
        ensures
            final(self)@ == old(self)@.after_key(key),
            action == (if old(self)@.quits(key) {
                Some(BrowseAction::Quit)
            } else {
                None
            }),
            final(self)@.wf(),
    {
        proof {
            law_keys_keep_the_screen_well_formed(self@, key);
        }
        if self.filter.focused {
            self.on_filter_key(key);
            return None;
        }
        if self.add.search_focused {
            self.on_add_search_key(key);
            return None;
        }
        if modified_char(&key) {
            return None;
        }
        let quits: bool = key.code == KeyCode::Char('q') && !self.is_modal();
        if self.add.flow.is_some() {
            self.on_wizard_key(key.code);
        } else if self.downloads.is_prompting() {
            self.on_downloads_prompt_key(key);
        } else if self.popups.confirm.is_some() {
            self.on_confirm_key(key.code);
        } else if self.popups.delete_prompt.is_some() {
            self.on_delete_prompt_key(key);
        } else if let Some(selected) = self.popups.sort_menu {
            self.on_sort_menu_key(key.code, selected);
        } else if let Some(selected) = self.popups.search_menu {
            self.on_search_menu_key(key.code, selected);
        } else if let Some(selected) = self.popups.rejections {
            self.on_rejections_key(key.code, selected);
        } else if self.overview.fullscreen {
            self.on_overview_key(key.code);
        } else {
            self.on_level_key(key.code);
        }
        if quits {
            Some(BrowseAction::Quit)
        } else {
            None
        }
    }
}

// Ticks.

fn count_new_items(queue: &Vec<QueueItem>, monitor: &Monitor) -> (count: usize)
    ensures
        count == new_items(queue@, monitor@),
{
    let mut count: usize = 0;
    let mut i: usize = 0;
    while i < queue.len()
        invariant
            count <= i <= queue@.len(),
            count == new_items(queue@.take(i as int), monitor@),
        decreases queue@.len() - i,
    {
        assert(queue@.take(i + 1).drop_last() =~= queue@.take(i as int));
        if queue[i].movie_id == Some(monitor.target_id) && !monitor.is_baseline(queue[i].id) {
            count += 1;
        }
        i += 1;
    }
    assert(queue@.take(i as int) =~= queue@);
    count
}

fn count_all(queue: &Vec<QueueItem>, monitors: &Vec<Monitor>) -> (counts: Vec<usize>)
    ensures
        counts@ == new_counts(queue@, monitors_view(monitors@)),
{
    let mut counts: Vec<usize> = Vec::new();
    let mut i: usize = 0;
    while i < monitors.len()
        invariant
            i <= monitors@.len(),
            counts@ == new_counts(queue@, monitors_view(monitors@)).take(i as int),
        decreases monitors@.len() - i,
    {
        counts.push(count_new_items(queue, &monitors[i]));
        assert(counts@ =~= new_counts(queue@, monitors_view(monitors@)).take(i + 1));
        i += 1;
    }
    assert(counts@ =~= new_counts(queue@, monitors_view(monitors@)));
    counts
}

impl Browse {
    /// Advance every monitor one tick and leave the requests they make (poll a
    /// command, refresh the queue); expired monitors are dropped.
    fn tick_monitors(&mut self)
        ensures
            final(self)@ == old(self)@.tick_monitors(),
    {
        let mut monitors: Vec<Monitor> = Vec::new();
        std::mem::swap(&mut monitors, &mut self.monitors);
        let counts: Vec<usize> = count_all(&self.lists.queue, &monitors);
        let round: Round = tick_round(monitors, &counts);
        self.monitors = round.monitors;
        if round.want_queue {
            self.fetch_queue();
        }
        let poll_list: Vec<(u64, i64)> = round.polls;
        let ghost asked = self@;
        let mut k: usize = 0;
        assert(asked.outbox + poll_requests(poll_list@).take(0) =~= asked.outbox);
        while k < poll_list.len()
            invariant
                k <= poll_list@.len(),
                self@ == (BrowseModel {
                    outbox: asked.outbox + poll_requests(poll_list@).take(k as int),
                    ..asked
                }),
            decreases poll_list@.len() - k,
        {
            let (generation, command_id) = poll_list[k];
            self.send(Request::PollCommand { generation, command_id });
            proof {
                let all = poll_requests(poll_list@);
                assert(asked.outbox + all.take(k + 1) =~= (asked.outbox + all.take(k as int)).push(
                    all[k as int],
                ));
            }
            k += 1;
        }
        assert(poll_requests(poll_list@).take(k as int) =~= poll_requests(poll_list@));
    }

    /// One 250ms tick: the spinner turns, the queue is polled on its cadence
    /// (every level shows download state, so the poll never pauses), and the
    /// monitors advance.
    pub fn on_tick(&mut self)
        requires
            old(self)@.wf(),
        ensures
            final(self)@ == old(self)@.after_tick(),
            final(self)@.wf(),
    {
        proof {
            law_ticks_keep_the_screen_well_formed(self@);
        }
        if self.status.loading {
            self.status.spinner_frame = (self.status.spinner_frame + 1) % SPINNER_FRAMES;
        }
        self.status.tick_count = if self.status.tick_count == u32::MAX {
            0
        } else {
            self.status.tick_count + 1
        };
        if self.status.tick_count % QUEUE_POLL_TICKS == 0 {
            self.fetch_queue();
        }
        self.tick_monitors();
    }
}

// Answers.

/// The readable entries of a lookup: the movies, and the objects they came in.
fn read_entries(entries: Vec<LookupEntry>) -> (r: (Vec<Arc<Movie>>, Vec<Value>))
    ensures
        r.0@ == entry_movies(entries@),
        r.1@ == entry_objects(entries@),
{
    let mut movies: Vec<Arc<Movie>> = Vec::new();
    let mut raw: Vec<Value> = Vec::new();
    let mut i: usize = 0;
    assert(entry_movies(entries@.take(0)) =~= Seq::empty());
    assert(entry_objects(entries@.take(0)) =~= Seq::empty());
    while i < entries.len()
        invariant
            i <= entries@.len(),
            movies@ == entry_movies(entries@.take(i as int)),
            raw@ == entry_objects(entries@.take(i as int)),
        decreases entries@.len() - i,
    {
        assert(entries@.take(i + 1).drop_last() =~= entries@.take(i as int));
        if let Some(movie) = &entries[i].movie {
            movies.push(movie.clone());
            raw.push(copy_value(&entries[i].raw));
        }
        assert(movies@ =~= entry_movies(entries@.take(i + 1)));
        assert(raw@ =~= entry_objects(entries@.take(i + 1)));
        i += 1;
    }
    assert(entries@.take(i as int) =~= entries@);
    (movies, raw)
}

impl Browse {
    /// Show an error.
    fn fail(&mut self, err: Error)
        ensures
            final(self)@ == old(self)@.failed(err),
    {
        self.status.error = Some(err.message());
    }

    /// The movie list, in the order of the current sort. Returns true when the
    /// server rejected the API key (the caller must drop to the setup screen).
    /// Staleness is checked first. A list refresh landing while the user is on
    /// the add screen must not touch that screen's state (the lookup owns it);
    /// a rejected key is still honoured.
    #[must_use]
    pub fn on_movies_loaded(
        &mut self,
        fetch_gen: u64,
        result: Result<Vec<Arc<Movie>>, Error>,
    ) -> (key_rejected: bool)
        ensures
            final(self)@ == old(self)@.after_movies(fetch_gen, listed(result)),
            key_rejected == (fetch_gen == old(self)@.gens.fetch && rejected(result)),
    {
        if fetch_gen != self.gens.fetch {
            return false;
        }
        if matches!(self.level, Level::Add) {
            return matches!(result, Err(Error::Unauthorized));
        }
        self.status.loading = false;
        match result {
            Ok(list) => {
                // A reload with a detail open (refresh, post-delete, post-grab)
                // must also refresh the copy the detail renders from.
                self.sync_level(&list);
                self.lists.all_movies = list;
                self.apply_filter();
                let sort: usize = self.sort.current;
                self.send(Request::Sort { sort });
                false
            },
            Err(Error::Unauthorized) => true,
            Err(err) => {
                self.fail(err);
                false
            },
        }
    }

    fn sync_level(&mut self, list: &Vec<Arc<Movie>>)
        ensures
            final(self)@ == (BrowseModel {
                level: old(self)@.level_synced(list@),
                ..old(self)@
            }),
    {
        let search: bool = matches!(self.level, Level::Search { .. });
        let updated: Option<Arc<Movie>> = match &self.level {
            Level::MovieDetail { movie } | Level::Search { movie } => find_movie(list, movie.id),
            _ => None,
        };
        if let Some(movie) = updated {
            self.level = if search {
                Level::Search { movie }
            } else {
                Level::MovieDetail { movie }
            };
        }
    }

    /// The positions of the movie list in the order of the chosen sort.
    pub fn on_sorted(&mut self, order: Vec<usize>)
        ensures
            final(self)@ == old(self)@.sorted(order@),
    {
        assert(self.lists.all_movies.len() == self.lists.all_movies@.len());
        if orders(&order, self.lists.all_movies.len()) {
            self.lists.all_movies = reorder(&self.lists.all_movies, &order);
            self.apply_filter();
        }
    }

    /// Same contract as `on_movies_loaded`. A failed poll is cosmetic (the
    /// markers just go stale until the next one) and must not stomp the screen
    /// with an error every 10 seconds — except a rejected key, which is
    /// reported like everywhere else.
    #[must_use]
    pub fn on_queue_loaded(
        &mut self,
        queue_gen: u64,
        result: Result<Vec<QueueItem>, Error>,
    ) -> (key_rejected: bool)
        ensures
            final(self)@ == old(self)@.after_queue(queue_gen, listed(result)),
            key_rejected == (queue_gen == old(self)@.gens.queue && rejected(result)),
    {
        if queue_gen != self.gens.queue {
            return false;
        }
        self.status.queue_loading = false;
        match result {
            Ok(queue) => {
                self.lists.queue = queue;
                self.downloads.prune(self.lists.queue.as_slice());
                false
            },
            Err(Error::Unauthorized) => true,
            Err(_) => false,
        }
    }

    /// Same contract as `on_movies_loaded`.
    #[must_use]
    pub fn on_releases_loaded(
        &mut self,
        fetch_gen: u64,
        result: Result<Vec<Release>, Error>,
    ) -> (key_rejected: bool)
        ensures
            final(self)@ == old(self)@.after_releases(fetch_gen, listed(result)),
            key_rejected == (fetch_gen == old(self)@.gens.fetch && rejected(result)),
    {
        if fetch_gen != self.gens.fetch {
            return false;
        }
        self.status.loading = false;
        match result {
            Ok(releases) => {
                self.lists.releases = releases;
                self.lists.release_cursor = 0;
                false
            },
            Err(Error::Unauthorized) => true,
            Err(err) => {
                self.fail(err);
                false
            },
        }
    }

    /// Same contract as `on_movies_loaded`. A missing history only costs the
    /// "grabbed before" marker, so failures are not shown.
    #[must_use]
    pub fn on_history_loaded(
        &mut self,
        fetch_gen: u64,
        result: Result<Vec<HistoryRecord>, Error>,
    ) -> (key_rejected: bool)
        ensures
            final(self)@ == old(self)@.after_history(fetch_gen, listed(result)),
            key_rejected == (fetch_gen == old(self)@.gens.fetch && rejected(result)),
    {
        if fetch_gen != self.gens.fetch {
            return false;
        }
        match result {
            Ok(history) => {
                self.lists.history = history;
                false
            },
            Err(Error::Unauthorized) => true,
            Err(_) => false,
        }
    }

    fn leave_deleted(&mut self, deleted_id: i64)
        ensures
            final(self)@ == old(self)@.leave_deleted(deleted_id),
    {
        let viewing: bool = match &self.level {
            Level::MovieDetail { movie } | Level::Search { movie } => movie.id == deleted_id,
            _ => false,
        };
        if viewing {
            self.level = Level::MovieList;
        }
    }

    /// A mutation succeeded: the notice is set after the refetch, which clears
    /// the notice row.
    fn on_success(&mut self, kind: CommandKind)
        ensures
            final(self)@ == old(self)@.after_success(kind),
    {
        match kind {
            CommandKind::AutoSearch => {
                self.status.notice = Some("search started; grabbed downloads appear in the queue");
                self.fetch_queue();
            },
            CommandKind::Grab => {
                self.pop_to_detail();
                self.status.notice = Some("release sent to the download client");
            },
            CommandKind::DeleteFile => {
                // Delete fires from the detail itself; stay there and let the
                // refetch swap the movie to its file-less form.
                self.fetch_movies();
                self.fetch_queue();
                self.status.notice = Some("movie file deleted");
            },
            CommandKind::DeleteMovie(deleted_id) => {
                // Only leave the detail if the user is still looking at it: a
                // delete landing after they navigated to another movie must not
                // yank them away.
                self.leave_deleted(deleted_id);
                self.fetch_movies();
                self.fetch_queue();
                self.status.notice = Some("movie deleted");
            },
            CommandKind::DeleteQueue => {
                self.downloads.clear_marks();
                self.fetch_queue();
                self.status.notice = Some("removed from queue");
            },
        }
    }

    /// Same contract as `on_movies_loaded`.
    #[must_use]
    pub fn on_command_done(
        &mut self,
        fetch_gen: u64,
        kind: CommandKind,
        result: Result<(), Error>,
    ) -> (key_rejected: bool)
        ensures
            final(self)@ == old(self)@.after_command(fetch_gen, kind, result),
            key_rejected == (fetch_gen == old(self)@.gens.fetch && rejected(result)),
    {
        if fetch_gen != self.gens.fetch {
            return false;
        }
        match result {
            Err(Error::Unauthorized) => true,
            Err(err) => {
                self.status.loading = false;
                self.fail(err);
                false
            },
            Ok(_) => {
                self.status.loading = false;
                self.on_success(kind);
                false
            },
        }
    }

    /// Lookup results. Checked against the lookup's own generation, so a lookup
    /// the user abandoned by leaving the add screen is dropped instead of
    /// surfacing an error on the list. Entries that hold no movie are dropped
    /// from both lists, which keeps them aligned.
    #[must_use]
    pub fn on_lookup_loaded(
        &mut self,
        add_lookup_gen: u64,
        result: Result<Vec<LookupEntry>, Error>,
    ) -> (key_rejected: bool)
        ensures
            final(self)@ == old(self)@.after_lookup(add_lookup_gen, listed(result)),
            key_rejected == (add_lookup_gen == old(self)@.gens.add_lookup && rejected(result)),
    {
        if add_lookup_gen != self.gens.add_lookup {
            return false;
        }
        self.status.loading = false;
        match result {
            Ok(entries) => {
                let (movies, raw) = read_entries(entries);
                self.add.results = movies;
                self.add.raw = raw;
                self.add.cursor = 0;
                false
            },
            Err(Error::Unauthorized) => true,
            Err(err) => {
                self.fail(err);
                false
            },
        }
    }

    /// Add-wizard prerequisites. A failure just leaves the pickers empty (the
    /// wizard then refuses to open), so it is not shown.
    #[must_use]
    pub fn on_add_options_loaded(
        &mut self,
        prereq_gen: u64,
        result: Result<(Vec<RootFolder>, Vec<QualityProfile>), Error>,
    ) -> (key_rejected: bool)
        ensures
            final(self)@ == old(self)@.after_add_options(prereq_gen, options(result)),
            key_rejected == (prereq_gen == old(self)@.gens.add_prereq && rejected(result)),
    {
        if prereq_gen != self.gens.add_prereq {
            return false;
        }
        match result {
            Ok((folders, profiles)) => {
                self.add.root_folders = folders;
                self.add.quality_profiles = profiles;
                false
            },
            Err(Error::Unauthorized) => true,
            Err(_) => false,
        }
    }

    /// The add finished. Its generation is bumped when the user leaves the add
    /// screen, so a committed add that lands after they moved on is dropped
    /// rather than yanking them to the new movie. On success the created movie
    /// is opened and the library refetched.
    #[must_use]
    pub fn on_movie_added(&mut self, add_gen: u64, result: Result<Arc<Movie>, Error>) -> (
    key_rejected: bool)
        ensures
            final(self)@ == old(self)@.after_added(add_gen, result),
            key_rejected == (add_gen == old(self)@.gens.add && rejected(result)),
    {
        if add_gen != self.gens.add {
            return false;
        }
        self.add.submitting = false;
        match result {
            Err(Error::Unauthorized) => true,
            Err(err) => {
                // Stay on the results so the user can pick something else.
                self.status.loading = false;
                self.add.pending_search = false;
                self.fail(err);
                false
            },
            Ok(movie) => {
                self.status.loading = false;
                let pending_search: bool = self.add.pending_search;
                self.add.pending_search = false;
                if pending_search {
                    self.start_auto_search(movie.id, movie_label(&movie));
                }
                self.open_added(movie);
                false
            },
        }
    }

    fn open_added(&mut self, movie: Arc<Movie>)
        ensures
            final(self)@ == old(self)@.opened_added(movie),
    {
        self.overview.scroll = 0;
        self.level = Level::MovieDetail { movie };
        self.add.results.clear();
        self.add.raw.clear();
        self.add.search.clear();
        self.add.search_focused = false;
        self.fetch_movies();
        self.fetch_queue();
        self.status.notice = Some("movie added");
    }

    /// A tracked search command was created (or failed to start).
    #[must_use]
    pub fn on_auto_search_started(
        &mut self,
        auto_search_gen: u64,
        result: Result<Command, Error>,
    ) -> (key_rejected: bool)
        ensures
            final(self)@ == old(self)@.after_search_started(auto_search_gen, result),
            key_rejected == rejects_key(old(self)@.monitors, auto_search_gen, result),
    {
        search_started(&mut self.monitors, auto_search_gen, result)
    }

    /// A status poll for a tracked command landed; on completion the queue is
    /// refreshed to confirm whether a release was grabbed.
    #[must_use]
    pub fn on_auto_search_polled(
        &mut self,
        auto_search_gen: u64,
        result: Result<Command, Error>,
    ) -> (key_rejected: bool)
        ensures
            final(self)@ == old(self)@.after_search_polled(auto_search_gen, result),
            key_rejected == rejects_key(old(self)@.monitors, auto_search_gen, result),
    {
        let (completed, key_rejected) = search_polled(
            &mut self.monitors,
            auto_search_gen,
            result,
        );
        if completed {
            self.fetch_queue();
        }
        key_rejected
    }

    /// The cross-tab status line summarising this app's auto-search monitors.
    pub fn status_line(&self) -> (line: Option<Vec<Span>>)
        ensures
            is_status_line("Radarr"@, self@.monitors, shown_line(line)),
    {
        status_line("Radarr", self.monitors.as_slice())
    }

    /// Take in the height of the screen before drawing. The background poll can
    /// shrink the queue under a stale cursor, so that is clamped too.
    pub fn before_draw(&mut self, height: u16)
        ensures
            final(self)@ == old(self)@.measured(height),
    {
        self.status.last_height = height;
        self.downloads.clamp(self.lists.queue.len());
    }

    /// Take back a scroll that went past the last page of the overview.
    pub fn clamp_overview(&mut self, lines: usize, height: usize)
        ensures
            final(self)@ == (BrowseModel {
                overview: Overview {
                    scroll: smaller(
                        old(self).overview.scroll as int,
                        if lines > height { lines - height } else { 0 },
                    ) as usize,
                    ..old(self).overview
                },
                ..old(self)@
            }),
    {
        let max_scroll: usize = lines.saturating_sub(height);
        if self.overview.scroll > max_scroll {
            self.overview.scroll = max_scroll;
        }
    }
}

} // verus!
