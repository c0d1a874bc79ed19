//! The browse screen: the tabs, the drill-down through the libraries and the
//! seasons of a series. Every fetch carries a generation, and answers under
//! another generation than the awaited one are dropped.

use std::sync::Arc;
use vstd::prelude::*;
use vstd::string::*;

use crate::app::{following_gen, modified_char, KeyCode, KeyEvent};
use crate::apps::jellyfin::laws::{
    law_answers_keep_the_screen_well_formed, law_keys_keep_the_screen_well_formed,
    law_screen_opens_well_formed,
};
use crate::apps::jellyfin::library::{
    build_library_query, group_seasons, info_available, library_kind, playable, seasons_of,
    server_filter_level, should_fetch_more, sort_options, LibraryKind, LibraryLevel, SeasonRow,
    Sort, Tab, PAGE_SIZE,
};
use crate::apps::jellyfin::msg::{requests, Request, Source};
use crate::apps::jellyfin::state::{
    claimed, listed, matching, of_season, rejected, retry_delay, BrowseModel, InputsModel,
    ListsModel, StatusModel,
};
use crate::jellyfin::{item_description, item_title, watched, Error, ItemKind, MediaItem};
use crate::text::{contains, opt_text, to_lowercase};
use crate::ui::input::TextInput;
use crate::ui::list::{next_entry, smaller, step_cursor, Step};

verus! {

/// The pictures of the spinner.
pub const SPINNER_FRAMES: usize = 8;

/// How many times a page in the client-filter load-everything chain is retried
/// after a transient error before the chain gives up. Bounded with exponential
/// backoff so one failed page cannot leave the filter matching a partial list,
/// nor hammer a struggling self-hosted server.
pub const FILTER_LOAD_MAX_RETRIES: u32 = 3;

/// What the browse screen wants its parent (the Jellyfin app) to do.
#[derive(Debug)]
pub enum BrowseAction {
    Quit,
    /// Play this item; if it is an episode, play it within its series.
    Play(Arc<MediaItem>),
}

/// Sub-position while drilled into a series. The show-info header stays pinned;
/// only the bottom region cycles through these.
#[derive(Debug, Clone, Copy, PartialEq, Eq, Structural)]
pub enum SeriesView {
    Seasons,
    Episodes,
    EpisodeInfo,
}

/// Where the user is.
#[derive(Debug)]
pub struct Place {
    pub tab: Tab,
    /// Drill-down position inside the Libraries tab; `Root` elsewhere.
    pub level: LibraryLevel,
    pub series: Option<Arc<MediaItem>>,
    /// Sub-view within a drilled-in series; ignored outside of one.
    pub view: SeriesView,
}

/// The lists.
#[derive(Debug)]
pub struct Lists {
    pub all_items: Vec<Arc<MediaItem>>,
    /// Currently visible items (filter applied).
    pub items: Vec<Arc<MediaItem>>,
    pub cursor: usize,
    /// Seasons derived from the loaded episode list, in first-seen order.
    pub seasons: Vec<SeasonRow>,
    /// Cursor within the seasons list (the episode list reuses `cursor`).
    pub season_cursor: usize,
    /// Server-side total for the current Libraries list, driving pagination.
    pub total: usize,
}

/// The input fields.
#[derive(Debug)]
pub struct Inputs {
    pub search: TextInput,
    pub search_focused: bool,
    pub filter: TextInput,
    pub filter_active: bool,
    pub filter_focused: bool,
}

/// The sort menu and the info panel.
#[derive(Debug, Clone, Copy, PartialEq, Eq, Structural)]
pub struct Popups {
    /// Sort of the collection-videos level; reset on entering a collection.
    pub collection_sort: Sort,
    /// Sort popup cursor; `None` when closed.
    pub sort_menu: Option<usize>,
    /// Full-screen info/overview panel for the selected item; modal while open.
    pub info_open: bool,
    /// Scroll offset into the info panel's wrapped text; clamped when drawing.
    pub info_scroll: u16,
}

/// The chrome around the lists.
#[derive(Debug)]
pub struct Status {
    pub loading: bool,
    pub error: Option<String>,
    /// One-line advisory (e.g. plain-http nudge after auto-login), shown in the
    /// error row when there is no error; cleared on the next fetch.
    pub notice: Option<&'static str>,
    pub has_fetched: bool,
    pub show_full_help: bool,
    /// Consecutive failures of the current client-filter chain page; reset on
    /// any successful page.
    pub filter_load_attempts: u32,
    pub spinner_frame: usize,
    /// Terminal height from the last draw, for page jumps.
    pub last_height: u16,
}

/// The generations: of the latest request at all, and of the awaited fetch.
#[derive(Debug, Clone, Copy, PartialEq, Eq, Structural)]
pub struct Gens {
    pub counter: u64,
    pub fetch: u64,
}

/// One page of a library list.
#[derive(Debug)]
pub struct ItemsResponse {
    pub items: Vec<Arc<MediaItem>>,
    pub total_record_count: i32,
}

/// The browse screen.
#[derive(Debug)]
pub struct Browse {
    pub place: Place,
    pub lists: Lists,
    pub inputs: Inputs,
    pub popups: Popups,
    pub status: Status,
    pub gens: Gens,
    /// What the program is asked to do, in order.
    pub outbox: Vec<Request>,
}

impl View for Lists {
    type V = ListsModel;

    open spec fn view(&self) -> ListsModel {
        ListsModel {
            all_items: self.all_items@,
            items: self.items@,
            cursor: self.cursor,
            seasons: self.seasons@,
            season_cursor: self.season_cursor,
            total: self.total,
        }
    }
}

impl View for Inputs {
    type V = InputsModel;

    open spec fn view(&self) -> InputsModel {
        InputsModel {
            search: self.search@,
            search_focused: self.search_focused,
            filter: self.filter@,
            filter_active: self.filter_active,
            filter_focused: self.filter_focused,
        }
    }
}

impl View for Status {
    type V = StatusModel;

    open spec fn view(&self) -> StatusModel {
        StatusModel {
            loading: self.loading,
            error: opt_text(self.error),
            notice: self.notice,
            has_fetched: self.has_fetched,
            show_full_help: self.show_full_help,
            filter_load_attempts: self.filter_load_attempts,
            spinner_frame: self.spinner_frame,
            last_height: self.last_height,
        }
    }
}

impl View for Browse {
    type V = BrowseModel;

    open spec fn view(&self) -> BrowseModel {
        BrowseModel {
            place: self.place,
            lists: self.lists@,
            inputs: self.inputs@,
            popups: self.popups,
            status: self.status@,
            gens: self.gens,
            outbox: requests(self.outbox@),
        }
    }
}

/// A page in place of what a request was answered with.
pub open spec fn paged(result: Result<ItemsResponse, Error>) -> Result<
    (Seq<Arc<MediaItem>>, i32),
    Error,
> {
    match result {
        Ok(page) => Ok((page.items@, page.total_record_count)),
        Err(err) => Err(err),
    }
}

/// A copy of a list; the items themselves are shared.
fn copy_items(items: &Vec<Arc<MediaItem>>) -> (copy: Vec<Arc<MediaItem>>)
    ensures
        copy@ == items@,
{
    let mut copy: Vec<Arc<MediaItem>> = Vec::new();
    let mut i: usize = 0;
    while i < items.len()
        invariant
            i <= items@.len(),
            copy@ == items@.take(i as int),
        decreases items@.len() - i,
    {
        copy.push(items[i].clone());
        assert(copy@ =~= items@.take(i + 1));
        i += 1;
    }
    assert(copy@ =~= items@);
    copy
}

/// The items whose title or description contains the needle.
fn matching_items(all: &Vec<Arc<MediaItem>>, needle: &str) -> (list: Vec<Arc<MediaItem>>)
    ensures
        list@ == matching(all@, needle@),
{
    let mut list: Vec<Arc<MediaItem>> = Vec::new();
    let mut i: usize = 0;
    while i < all.len()
        invariant
            i <= all@.len(),
            list@ == matching(all@.take(i as int), needle@),
        decreases all@.len() - i,
    {
        assert(all@.take(i + 1).drop_last() =~= all@.take(i as int));
        let title: String = to_lowercase(item_title(&all[i]).as_str());
        let description: String = to_lowercase(item_description(&all[i]).as_str());
        if contains(title.as_str(), needle) || contains(description.as_str(), needle) {
            list.push(all[i].clone());
        }
        i += 1;
    }
    assert(all@.take(i as int) =~= all@);
    list
}

/// The episodes of one season.
fn season_items(all: &Vec<Arc<MediaItem>>, number: Option<i32>) -> (list: Vec<Arc<MediaItem>>)
    ensures
        list@ == of_season(all@, number),
{
    let mut list: Vec<Arc<MediaItem>> = Vec::new();
    let mut i: usize = 0;
    while i < all.len()
        invariant
            i <= all@.len(),
            list@ == of_season(all@.take(i as int), number),
        decreases all@.len() - i,
    {
        assert(all@.take(i + 1).drop_last() =~= all@.take(i as int));
        if all[i].parent_index_number == number {
            list.push(all[i].clone());
        }
        i += 1;
    }
    assert(all@.take(i as int) =~= all@);
    list
}

impl Browse {
    /// Open the screen on its first tab, whose list is asked for at once.
    pub fn new(gen_counter: u64) -> (browse: Self)
        ensures
            browse@ == BrowseModel::initial(gen_counter).fetch(),
            browse@.wf(),
    {
        let mut browse = Browse {
            place: Place {
                tab: Tab::Resume,
                level: LibraryLevel::Root,
                series: None,
                view: SeriesView::Seasons,
            },
            lists: Lists {
                all_items: Vec::new(),
                items: Vec::new(),
                cursor: 0,
                seasons: Vec::new(),
                season_cursor: 0,
                total: 0,
            },
            inputs: Inputs {
                search: TextInput::new(),
                search_focused: false,
                filter: TextInput::new(),
                filter_active: false,
                filter_focused: false,
            },
            popups: Popups {
                collection_sort: Sort::default(),
                sort_menu: None,
                info_open: false,
                info_scroll: 0,
            },
            status: Status {
                loading: false,
                error: None,
                notice: None,
                has_fetched: false,
                show_full_help: false,
                filter_load_attempts: 0,
                spinner_frame: 0,
                last_height: 24,
            },
            gens: Gens { counter: gen_counter, fetch: 0 },
            outbox: Vec::new(),
        };
        assert(browse@.outbox =~= BrowseModel::initial(gen_counter).outbox);
        browse.fetch();
        proof {
            law_screen_opens_well_formed(gen_counter);
        }
        browse
    }

    /// Hand the collected requests over.
    pub fn take_requests(&mut self) -> (list: Vec<Request>)
        ensures
            requests(list@) == old(self)@.outbox,
            final(self)@ == (BrowseModel { outbox: Seq::empty(), ..old(self)@ }),
    {
        let mut list: Vec<Request> = Vec::new();
        std::mem::swap(&mut list, &mut self.outbox);
        assert(requests(self.outbox@) =~= Seq::empty());
        list
    }

    fn send(&mut self, request: Request)
        ensures
            final(self)@ == old(self)@.sent(request@),
    {
        let ghost before = self.outbox@;
        self.outbox.push(request);
        assert(requests(self.outbox@) =~= requests(before).push(request@));
    }

    pub fn on_tick(&mut self)
        requires
            old(self)@.wf(),
        ensures
            final(self)@ == old(self)@.after_tick(),
            final(self)@.wf(),
    {
        if self.status.loading {
            self.status.spinner_frame = (self.status.spinner_frame + 1) % SPINNER_FRAMES;
        }
    }

    pub fn current_item(&self) -> (item: Option<Arc<MediaItem>>)
        ensures
            item == self@.current_item(),
    {
        if self.lists.cursor < self.lists.items.len() {
            Some(self.lists.items[self.lists.cursor].clone())
        } else {
            None
        }
    }

    /// Whether a text input currently swallows plain character keys (so
    /// app-level shortcuts like `s` must stay out of the way).
    pub fn input_focused(&self) -> (answer: bool)
        ensures
            answer == (self@.inputs.search_focused || self@.inputs.filter_focused),
    {
        self.inputs.search_focused || self.inputs.filter_focused
    }

    fn in_libraries(&self) -> (answer: bool)
        ensures
            answer == self@.in_libraries(),
    {
        self.place.tab == Tab::Libraries && self.place.series.is_none()
    }

    fn in_library(&self) -> (answer: bool)
        ensures
            answer == self@.in_library(),
    {
        self.in_libraries() && !matches!(self.place.level, LibraryLevel::Root)
    }

    /// Whether the user is inside any drill-down level; tab switching is
    /// blocked while drilled in.
    pub fn drilled_in(&self) -> (answer: bool)
        ensures
            answer == self@.drilled_in(),
    {
        self.place.series.is_some() || (self.place.tab == Tab::Libraries && !matches!(
            self.place.level,
            LibraryLevel::Root
        ))
    }

    /// Whether `/` filters server-side instead of narrowing the already-loaded
    /// items. True only in movie/show library listings. The episodes drill and
    /// the client-filtered levels behave like every other tab.
    pub fn uses_server_filter(&self) -> (answer: bool)
        ensures
            answer == self@.uses_server_filter(),
    {
        self.in_libraries() && server_filter_level(&self.place.level)
    }

    /// Only videos inside a collection are user-sortable; every other Libraries
    /// list uses the default sort.
    pub fn current_sort(&self) -> (sort: Sort)
        ensures
            sort == self@.current_sort(),
    {
        if matches!(self.place.level, LibraryLevel::Collection { .. }) {
            self.popups.collection_sort
        } else {
            Sort::default()
        }
    }

    pub fn sort_key_available(&self) -> (answer: bool)
        ensures
            answer == self@.sort_key_available(),
    {
        self.in_libraries() && matches!(self.place.level, LibraryLevel::Collection { .. })
    }

    /// Mark a fetch as started and allocate its generation; any result carrying
    /// an older generation is stale and dropped on arrival.
    fn begin_fetch(&mut self) -> (gen: u64)
        ensures
            final(self)@ == old(self)@.begin_fetch(),
            gen == final(self)@.gens.fetch,
    {
        self.status.loading = true;
        self.status.error = None;
        if self.status.has_fetched {
            self.status.notice = None;
        }
        self.status.has_fetched = true;
        let gen: u64 = following_gen(self.gens.counter);
        self.gens = Gens { counter: gen, fetch: gen };
        gen
    }

    /// Drop the displayed list ahead of a fresh navigation so the body shows
    /// `Loading...` instead of the previous view's items. Only navigation uses
    /// this: position-preserving refreshes and page appends keep the visible
    /// list until the result lands.
    fn clear_list(&mut self)
        ensures
            final(self)@ == old(self)@.clear_list(),
    {
        self.lists.all_items.clear();
        self.lists.items.clear();
    }

    fn source(&self) -> (source: Source)
        ensures
            source@ == self@.source(),
    {
        match &self.place.series {
            Some(series) => Source::Episodes(series.clone()),
            None => match self.place.tab {
                Tab::Resume => Source::Resume,
                Tab::NextUp => Source::NextUp,
                Tab::RecentlyAdded => Source::RecentlyAdded,
                Tab::Libraries => Source::Nothing,
                Tab::Search => if self.inputs.search.value().is_empty() {
                    Source::Nothing
                } else {
                    Source::Search(self.inputs.search.value().to_owned())
                },
            },
        }
    }

    pub fn fetch(&mut self)
        ensures
            final(self)@ == old(self)@.fetch(),
    {
        // Libraries lists are paginated and go through their own path; the
        // episodes drill inside a shows library is the exception and loads
        // like any other series.
        if self.in_libraries() {
            self.fetch_library_page(0, PAGE_SIZE);
            return;
        }
        let source: Source = self.source();
        let fetch_gen: u64 = self.begin_fetch();
        self.send(Request::Items { fetch_gen, source });
    }

    /// Request `limit` items of the current library level starting at
    /// `start_index`. `start_index == 0` replaces the list (navigation,
    /// sort/filter change, refresh); a later index appends as the user scrolls.
    /// `limit` is normally `PAGE_SIZE`; a position-preserving refresh passes
    /// the loaded count to reload every page scrolled through in one request.
    fn fetch_library_page(&mut self, start_index: usize, limit: usize)
        ensures
            final(self)@ == old(self)@.fetch_page(start_index, limit, 0),
    {
        self.fetch_library_page_after(start_index, limit, 0);
    }

    /// The same after a wait, used by the client-filter chain's bounded retry
    /// so a transient page error does not halt the load permanently. Carries a
    /// fresh generation like every fetch, so a delayed page landing after the
    /// user navigates away is dropped as stale.
    fn fetch_library_page_after(&mut self, start_index: usize, limit: usize, delay_ms: u64)
        ensures
            final(self)@ == old(self)@.fetch_page(start_index, limit, delay_ms),
    {
        let fetch_gen: u64 = self.begin_fetch();
        // Client-filtered levels always fetch unfiltered pages: the server
        // would ignore the term anyway, and the local filter needs the
        // complete list.
        let filter: Option<&str> = if self.inputs.filter_active && self.uses_server_filter() {
            Some(self.inputs.filter.value())
        } else {
            None
        };
        match build_library_query(&self.place.level, self.current_sort(), filter, start_index) {
            // Root: a handful of entries, one unpaginated request.
            None => {
                self.send(
                    Request::LibraryPage { fetch_gen, start_index: 0, limit, delay_ms, query: None },
                );
            },
            Some(query) => {
                let mut query = query;
                query.limit = limit;
                self.send(
                    Request::LibraryPage {
                        fetch_gen,
                        start_index,
                        limit,
                        delay_ms,
                        query: Some(query),
                    },
                );
            },
        }
    }

    /// Re-fetch the current view after a local state change (watched toggle,
    /// playback end) WITHOUT discarding the scroll position of a paginated
    /// library. It reloads every page already scrolled through in one request,
    /// so the reloaded list is the same length and the cursor still points at
    /// the same item.
    fn refetch_in_place(&mut self)
        ensures
            final(self)@ == old(self)@.refetch_in_place(),
    {
        if self.in_library() {
            let loaded: usize = if self.lists.all_items.len() > PAGE_SIZE {
                self.lists.all_items.len()
            } else {
                PAGE_SIZE
            };
            self.fetch_library_page(0, loaded);
        } else {
            self.fetch();
        }
    }

    fn next_page(&mut self)
        ensures
            final(self)@ == old(self)@.next_page(),
    {
        let loaded: usize = self.lists.all_items.len();
        self.fetch_library_page(loaded, PAGE_SIZE);
    }

    fn maybe_fetch_next_page(&mut self)
        ensures
            final(self)@ == old(self)@.maybe_fetch_next_page(),
    {
        // The root list is never paginated, whatever total the server reports
        // for it.
        if self.in_library() && should_fetch_more(
            self.lists.cursor,
            self.lists.all_items.len(),
            self.lists.total,
            self.status.loading,
        ) {
            self.next_page();
        }
    }

    /// Kick off loading the rest of a client-filtered list the moment its
    /// filter activates, so the filter sees every item, not just the pages
    /// scrolled past so far. No-op in server-filter mode and while a fetch is
    /// in flight (the arriving page continues the chain).
    fn maybe_start_filter_load(&mut self)
        ensures
            final(self)@ == old(self)@.maybe_start_filter_load(),
    {
        if self.in_library() && !self.uses_server_filter() && !self.status.loading
            && self.lists.all_items.len() < self.lists.total {
            // Fresh chain: give it a full retry budget.
            self.status.filter_load_attempts = 0;
            self.next_page();
        }
    }

    fn clear_filter(&mut self)
        ensures
            final(self)@ == old(self)@.filter_cleared(),
    {
        self.inputs.filter.clear();
        self.inputs.filter_active = false;
        self.inputs.filter_focused = false;
    }

    /// Reset per-level list state after moving between library levels, then
    /// load the first page of the level just entered. The previous level's
    /// items are dropped so the body shows `Loading...` until it arrives.
    fn enter_new_level(&mut self)
        ensures
            final(self)@ == old(self)@.enter_new_level(),
    {
        self.clear_list();
        self.clear_filter();
        self.lists.cursor = 0;
        self.lists.total = 0;
        self.status.filter_load_attempts = 0;
        self.fetch_library_page(0, PAGE_SIZE);
    }

    fn restart_list(&mut self)
        ensures
            final(self)@ == old(self)@.restart_list(),
    {
        self.clear_list();
        self.lists.cursor = 0;
        self.fetch_library_page(0, PAGE_SIZE);
    }

    fn fail(&mut self, err: Error)
        ensures
            final(self)@ == old(self)@.failed(err),
    {
        self.status.error = Some(err.message());
    }

    /// Group the loaded flat episode list into seasons.
    fn build_seasons(&mut self)
        ensures
            final(self)@ == (BrowseModel {
                lists: ListsModel {
                    seasons: seasons_of(old(self)@.lists.all_items),
                    ..old(self)@.lists
                },
                ..old(self)@
            }),
    {
        self.lists.seasons = group_seasons(self.lists.all_items.as_slice());
    }

    /// The season number currently selected in the seasons list (`None` is a
    /// valid value: the Specials bucket).
    pub fn selected_season(&self) -> (number: Option<i32>)
        ensures
            number == self@.selected_season(),
    {
        if self.lists.season_cursor < self.lists.seasons.len() {
            self.lists.seasons[self.lists.season_cursor].number
        } else {
            None
        }
    }

    /// Rebuild the visible list to just the selected season's episodes,
    /// clamping the episode cursor. Used on entering a season and on refresh.
    fn rebuild_season_episodes(&mut self)
        ensures
            final(self)@ == old(self)@.season_episodes(),
    {
        let number: Option<i32> = self.selected_season();
        self.lists.items = season_items(&self.lists.all_items, number);
        if self.lists.cursor >= self.lists.items.len() {
            self.lists.cursor = self.lists.items.len().saturating_sub(1);
        }
    }

    /// Enter the highlighted season: switch the bottom region to its episodes.
    fn enter_season(&mut self)
        ensures
            final(self)@ == old(self)@.enter_season(),
    {
        if self.lists.season_cursor >= self.lists.seasons.len() {
            return;
        }
        self.lists.cursor = 0;
        self.place.view = SeriesView::Episodes;
        self.rebuild_season_episodes();
    }

    fn apply_filter(&mut self)
        ensures
            final(self)@ == old(self)@.apply_filter(),
    {
        // Server-side filtering: the loaded items already match the filter, so
        // they are just mirrored.
        if self.uses_server_filter() || !self.inputs.filter_active
            || self.inputs.filter.value().is_empty() {
            self.lists.items = copy_items(&self.lists.all_items);
        } else {
            let needle: String = to_lowercase(self.inputs.filter.value());
            self.lists.items = matching_items(&self.lists.all_items, needle.as_str());
        }
        if self.lists.cursor >= self.lists.items.len() {
            self.lists.cursor = 0;
        }
    }

    fn toggle_watched(&mut self)
        ensures
            final(self)@ == old(self)@.toggle_watched(),
    {
        let item: Arc<MediaItem> = match self.current_item() {
            Some(item) => item,
            None => {
                return;
            },
        };
        // Only individually playable items toggle; series, libraries and
        // collections are containers.
        if !playable(&item) {
            return;
        }
        self.status.loading = true;
        let fetch_gen: u64 = self.gens.fetch;
        let item_id: String = item.id.clone();
        let now: bool = !watched(&item);
        self.send(Request::SetWatched { fetch_gen, item_id, watched: now });
    }
}

// Keys.

impl Browse {
    fn on_search_key(&mut self, key: KeyEvent)
        ensures
            final(self)@ == old(self)@.search_key(key),
    {
        match key.code {
            KeyCode::Esc => {
                self.inputs.search_focused = false;
            },
            KeyCode::Enter | KeyCode::Tab | KeyCode::BackTab | KeyCode::Up | KeyCode::Down => {
                self.inputs.search_focused = false;
                // An empty query does not touch the network; keep the (empty)
                // list as is rather than flashing `Loading...` for it.
                if !self.inputs.search.value().is_empty() {
                    self.clear_list();
                }
                self.lists.cursor = 0;
                self.fetch();
            },
            _ => {
                self.inputs.search.on_key(key);
            },
        }
        self.inputs.search.focused = self.inputs.search_focused;
    }

    /// Server-side filter: typing only edits the text; leaving the input
    /// applies it as a fresh first-page fetch. Applying on EVERY unfocus path
    /// (not just Enter) keeps a later page append from mixing an
    /// edited-but-unapplied term with the visible list.
    fn on_server_filter_key(&mut self, key: KeyEvent)
        ensures
            final(self)@ == old(self)@.server_filter_key(key),
    {
        match key.code {
            KeyCode::Esc => {
                self.clear_filter();
                self.restart_list();
            },
            KeyCode::Enter | KeyCode::Tab | KeyCode::BackTab | KeyCode::Up | KeyCode::Down => {
                self.inputs.filter_focused = false;
                if self.inputs.filter.value().is_empty() {
                    self.inputs.filter_active = false;
                }
                self.restart_list();
            },
            _ => {
                self.inputs.filter.on_key(key);
            },
        }
    }

    fn on_local_filter_key(&mut self, key: KeyEvent)
        ensures
            final(self)@ == old(self)@.local_filter_key(key),
    {
        match key.code {
            KeyCode::Esc => {
                self.clear_filter();
                self.apply_filter();
            },
            KeyCode::Enter | KeyCode::Tab | KeyCode::BackTab | KeyCode::Up | KeyCode::Down => {
                self.inputs.filter_focused = false;
            },
            _ => {
                if self.inputs.filter.on_key(key) {
                    self.apply_filter();
                }
            },
        }
    }

    fn on_filter_key(&mut self, key: KeyEvent)
        ensures
            final(self)@ == old(self)@.filter_key(key),
    {
        if self.uses_server_filter() {
            self.on_server_filter_key(key);
        } else {
            self.on_local_filter_key(key);
        }
        self.inputs.filter.focused = self.inputs.filter_focused;
    }

    /// The sort popup is modal: while open it owns every key.
    fn on_sort_menu_key(&mut self, code: KeyCode, selected: usize)
        requires
            old(self)@.popups.sort_menu == Some(selected),
        ensures
            final(self)@ == old(self)@.sort_menu_key(code),
    {
        match code {
            KeyCode::Up => {
                self.popups.sort_menu = Some(selected.saturating_sub(1));
            },
            KeyCode::Down => {
                self.popups.sort_menu = Some(next_entry(selected, 6));
            },
            KeyCode::Enter => {
                self.popups.sort_menu = None;
                let options: Vec<Sort> = sort_options();
                let sort: Sort = if selected < options.len() {
                    options[selected]
                } else {
                    Sort::default()
                };
                if sort != self.popups.collection_sort {
                    self.popups.collection_sort = sort;
                    self.restart_list();
                }
            },
            KeyCode::Esc | KeyCode::Char('q') | KeyCode::Char('v') => {
                self.popups.sort_menu = None;
            },
            _ => {},
        }
    }

    fn on_scroll_key(&mut self, code: KeyCode)
        ensures
            final(self)@ == old(self)@.scroll_key(code),
    {
        let page: u16 = if self.status.last_height > 5 {
            self.status.last_height - 4
        } else {
            1
        };
        let scroll: u16 = self.popups.info_scroll;
        match code {
            KeyCode::Up => {
                self.popups.info_scroll = scroll.saturating_sub(1);
            },
            KeyCode::Down => {
                self.popups.info_scroll = scroll.saturating_add(1);
            },
            KeyCode::PageUp | KeyCode::Left => {
                self.popups.info_scroll = scroll.saturating_sub(page);
            },
            KeyCode::PageDown | KeyCode::Right => {
                self.popups.info_scroll = scroll.saturating_add(page);
            },
            KeyCode::Home | KeyCode::Char('g') => {
                self.popups.info_scroll = 0;
            },
            KeyCode::End | KeyCode::Char('G') => {
                self.popups.info_scroll = u16::MAX;
            },
            _ => {},
        }
    }

    /// The info panel is modal: while open it owns scroll and close keys, so
    /// the list cursor stays pinned to the item being read.
    fn on_info_key(&mut self, code: KeyCode)
        ensures
            final(self)@ == old(self)@.info_key(code),
    {
        match code {
            KeyCode::Esc | KeyCode::Backspace | KeyCode::Char('i') => {
                self.popups.info_open = false;
                self.popups.info_scroll = 0;
            },
            _ => self.on_scroll_key(code),
        }
    }

    fn page_jump(&self) -> (rows: usize)
        ensures
            rows == self@.page_jump(),
    {
        let jump: u16 = self.status.last_height / 5;
        if jump == 0 {
            1
        } else {
            jump as usize
        }
    }

    fn move_cursor(&mut self, step: Step)
        ensures
            final(self)@ == old(self)@.move_cursor(step),
    {
        let page: usize = self.page_jump();
        self.lists.cursor = step_cursor(step, self.lists.cursor, self.lists.items.len(), page);
    }

    fn move_season(&mut self, step: Step)
        ensures
            final(self)@ == old(self)@.move_season(step),
    {
        let page: usize = self.page_jump();
        self.lists.season_cursor = step_cursor(
            step,
            self.lists.season_cursor,
            self.lists.seasons.len(),
            page,
        );
    }

    fn toggle_help(&mut self)
        ensures
            final(self)@ == old(self)@.help_toggled(),
    {
        self.status.show_full_help = !self.status.show_full_help;
    }

    /// Leave the series, back to the tab's list. Its episodes are dropped so
    /// nothing from it is playable during the refetch.
    fn leave_series(&mut self)
        ensures
            final(self)@ == old(self)@.leave_series(),
    {
        self.place.series = None;
        self.place.view = SeriesView::Seasons;
        self.lists.items.clear();
        self.lists.seasons.clear();
        self.lists.cursor = 0;
        self.fetch();
    }

    fn on_seasons_key(&mut self, code: KeyCode)
        ensures
            final(self)@ == old(self)@.seasons_key(code),
    {
        match code {
            KeyCode::Up | KeyCode::Char('k') => self.move_season(Step::Up),
            KeyCode::Down | KeyCode::Char('j') => self.move_season(Step::Down),
            KeyCode::PageUp | KeyCode::Left | KeyCode::Char('b') | KeyCode::Char('u') => {
                self.move_season(Step::PageUp)
            },
            KeyCode::PageDown | KeyCode::Right | KeyCode::Char('f') | KeyCode::Char('d') => {
                self.move_season(Step::PageDown)
            },
            KeyCode::Home | KeyCode::Char('g') => self.move_season(Step::Home),
            KeyCode::End | KeyCode::Char('G') => self.move_season(Step::End),
            KeyCode::Enter | KeyCode::Char(' ') => self.enter_season(),
            KeyCode::Esc | KeyCode::Backspace => self.leave_series(),
            KeyCode::Char('r') => self.fetch(),
            KeyCode::Char('?') => self.toggle_help(),
            _ => {},
        }
    }

    fn on_episodes_key(&mut self, code: KeyCode)
        ensures
            final(self)@ == old(self)@.episodes_key(code),
    {
        match code {
            KeyCode::Up | KeyCode::Char('k') => self.move_cursor(Step::Up),
            KeyCode::Down | KeyCode::Char('j') => self.move_cursor(Step::Down),
            KeyCode::PageUp | KeyCode::Left | KeyCode::Char('b') | KeyCode::Char('u') => {
                self.move_cursor(Step::PageUp)
            },
            KeyCode::PageDown | KeyCode::Right | KeyCode::Char('f') | KeyCode::Char('d') => {
                self.move_cursor(Step::PageDown)
            },
            KeyCode::Home | KeyCode::Char('g') => self.move_cursor(Step::Home),
            KeyCode::End | KeyCode::Char('G') => self.move_cursor(Step::End),
            KeyCode::Char('i') => {
                if self.lists.items.len() > 0 {
                    self.place.view = SeriesView::EpisodeInfo;
                    self.popups.info_scroll = 0;
                }
            },
            KeyCode::Char('w') => self.toggle_watched(),
            KeyCode::Esc | KeyCode::Backspace => {
                self.place.view = SeriesView::Seasons;
                self.lists.cursor = 0;
            },
            KeyCode::Char('r') => self.fetch(),
            KeyCode::Char('?') => self.toggle_help(),
            _ => {},
        }
    }

    fn on_episode_info_key(&mut self, code: KeyCode)
        ensures
            final(self)@ == old(self)@.episode_info_key(code),
    {
        match code {
            KeyCode::Esc | KeyCode::Backspace | KeyCode::Char('i') => {
                self.place.view = SeriesView::Episodes;
                self.popups.info_scroll = 0;
            },
            KeyCode::Char('?') => self.toggle_help(),
            _ => self.on_scroll_key(code),
        }
    }

    /// Key handling inside a drilled-in series. The show-info header stays
    /// fixed; these keys drive the bottom region: seasons list -> episode list
    /// -> episode info.
    pub fn on_series_key(&mut self, key: KeyEvent) -> (action: Option<BrowseAction>)
        ensures
            final(self)@ == old(self)@.series_key(key.code),
            action == old(self)@.series_action(key.code),
    {
        let plays: bool = match self.place.view {
            SeriesView::Seasons => false,
            SeriesView::Episodes => matches!(key.code, KeyCode::Enter | KeyCode::Char(' ')),
            SeriesView::EpisodeInfo => matches!(key.code, KeyCode::Enter),
        };
        if plays {
            return match self.current_item() {
                Some(episode) => Some(BrowseAction::Play(episode)),
                None => None,
            };
        }
        match self.place.view {
            SeriesView::Seasons => self.on_seasons_key(key.code),
            SeriesView::Episodes => self.on_episodes_key(key.code),
            SeriesView::EpisodeInfo => self.on_episode_info_key(key.code),
        }
        if key.code == KeyCode::Char('q') {
            Some(BrowseAction::Quit)
        } else {
            None
        }
    }

    fn switch_tab(&mut self, tab: Tab)
        ensures
            final(self)@ == old(self)@.on_tab(tab),
    {
        self.place.tab = tab;
        self.clear_list();
        self.lists.cursor = 0;
        self.place.level = LibraryLevel::Root;
        self.lists.total = 0;
        self.fetch();
    }

    fn on_slash_key(&mut self)
        ensures
            final(self)@ == old(self)@.slash_key(),
    {
        if self.place.tab == Tab::Search && self.place.series.is_none() {
            self.inputs.search_focused = true;
            self.inputs.search.focused = true;
        } else if self.in_libraries() && matches!(self.place.level, LibraryLevel::Root) {
            // No filter at the libraries root: the list takes no term and is a
            // handful of entries.
        } else {
            self.inputs.filter_active = true;
            self.inputs.filter_focused = true;
            self.inputs.filter.focused = true;
            self.maybe_start_filter_load();
        }
    }

    /// Pop one library level; collections only exist inside Other libraries, so
    /// that is always where they return to.
    fn pop_level(&mut self)
        ensures
            final(self)@ == old(self)@.pop_level(),
    {
        let level: LibraryLevel = match &self.place.level {
            LibraryLevel::Collection { library, .. } => LibraryLevel::Library {
                library: library.clone(),
                kind: LibraryKind::Other,
            },
            LibraryLevel::Library { .. } => LibraryLevel::Root,
            LibraryLevel::Root => {
                return;
            },
        };
        self.place.level = level;
        self.enter_new_level();
    }

    fn drop_filter(&mut self)
        ensures
            final(self)@ == old(self)@.filter_dropped(),
    {
        let server: bool = self.uses_server_filter();
        self.inputs.filter.clear();
        self.inputs.filter_active = false;
        if server {
            self.restart_list();
        } else {
            self.apply_filter();
        }
    }

    fn on_back_key(&mut self, code: KeyCode)
        ensures
            final(self)@ == old(self)@.back_key(code),
    {
        if self.inputs.filter_active && code == KeyCode::Esc {
            self.drop_filter();
        } else if self.in_libraries() && !self.inputs.filter_active {
            self.pop_level();
        } else if self.place.tab == Tab::Search && code == KeyCode::Esc
            && !self.inputs.search.value().is_empty() {
            // The now-empty query replaces the list with an empty one
            // immediately; no clear needed.
            self.inputs.search.clear();
            self.lists.cursor = 0;
            self.fetch();
        }
    }

    fn open_series(&mut self, series: Arc<MediaItem>)
        ensures
            final(self)@ == old(self)@.open_series(series),
    {
        self.place.series = Some(series);
        self.place.view = SeriesView::Seasons;
        self.lists.season_cursor = 0;
        self.lists.seasons.clear();
        self.lists.cursor = 0;
        self.fetch();
    }

    /// The library level that opening an item enters, if any.
    fn level_below(&self, item: &Arc<MediaItem>) -> (level: Option<LibraryLevel>)
        ensures
            level == self@.level_below(*item),
    {
        if !self.in_libraries() {
            return None;
        }
        match &self.place.level {
            LibraryLevel::Root => Some(
                LibraryLevel::Library { library: item.clone(), kind: library_kind(item) },
            ),
            LibraryLevel::Library { library, kind } => if *kind == LibraryKind::Other && item.kind
                == ItemKind::BoxSet {
                Some(
                    LibraryLevel::Collection { library: library.clone(), collection: item.clone() },
                )
            } else {
                None
            },
            LibraryLevel::Collection { .. } => None,
        }
    }

    /// Open the item under the cursor: a library level, a series, or (returned
    /// for the app to play) anything else that is no container.
    fn on_open_key(&mut self) -> (play: Option<Arc<MediaItem>>)
        ensures
            play == old(self)@.plays(),
            final(self)@ == old(self)@.open_key(),
    {
        let item: Arc<MediaItem> = match self.current_item() {
            Some(item) => item,
            None => {
                return None;
            },
        };
        if let Some(level) = self.level_below(&item) {
            // Sort belongs to the collection level; entering always starts
            // from the default.
            if matches!(level, LibraryLevel::Collection { .. }) {
                self.popups.collection_sort = Sort::default();
            }
            self.place.level = level;
            self.enter_new_level();
            return None;
        }
        match item.kind {
            ItemKind::Series => {
                self.open_series(item);
                None
            },
            // Containers never play; anything else does. A video inside a
            // collection plays alone (only episodes are expanded to a
            // playlist, by the player).
            ItemKind::BoxSet | ItemKind::CollectionFolder => None,
            _ => Some(item),
        }
    }

    fn on_list_key(&mut self, code: KeyCode) -> (action: Option<BrowseAction>)
        ensures
            action == old(self)@.list_action(code),
            final(self)@ == (if action is Some {
                old(self)@
            } else {
                old(self)@.list_key(code)
            }),
    {
        match code {
            KeyCode::Up | KeyCode::Char('k') => self.move_cursor(Step::Up),
            KeyCode::Down | KeyCode::Char('j') => self.move_cursor(Step::Down),
            KeyCode::PageUp | KeyCode::Char('b') | KeyCode::Char('u') => self.move_cursor(
                Step::PageUp,
            ),
            KeyCode::PageDown | KeyCode::Char('f') | KeyCode::Char('d') => self.move_cursor(
                Step::PageDown,
            ),
            KeyCode::Home | KeyCode::Char('g') => self.move_cursor(Step::Home),
            KeyCode::End | KeyCode::Char('G') => self.move_cursor(Step::End),
            KeyCode::Tab | KeyCode::Char('l') | KeyCode::Right => {
                if !self.drilled_in() {
                    self.switch_tab(self.place.tab.next());
                } else if code == KeyCode::Right {
                    // Inside a library the arrows page through it.
                    self.move_cursor(Step::PageDown);
                }
            },
            KeyCode::BackTab | KeyCode::Char('h') | KeyCode::Left => {
                if !self.drilled_in() {
                    self.switch_tab(self.place.tab.prev());
                } else if code == KeyCode::Left {
                    self.move_cursor(Step::PageUp);
                }
            },
            KeyCode::Char('/') => self.on_slash_key(),
            KeyCode::Esc | KeyCode::Backspace => self.on_back_key(code),
            KeyCode::Enter | KeyCode::Char(' ') => {
                if let Some(item) = self.on_open_key() {
                    return Some(BrowseAction::Play(item));
                }
            },
            KeyCode::Char('v') => {
                if self.sort_key_available() {
                    self.popups.sort_menu = Some(self.popups.collection_sort.index());
                }
            },
            KeyCode::Char('w') => self.toggle_watched(),
            KeyCode::Char('i') => {
                if let Some(item) = self.current_item() {
                    if info_available(&item) {
                        self.popups.info_open = true;
                        self.popups.info_scroll = 0;
                    }
                }
            },
            KeyCode::Char('r') => self.fetch(),
            KeyCode::Char('?') => self.toggle_help(),
            KeyCode::Char('q') => {
                return Some(BrowseAction::Quit);
            },
            _ => {},
        }
        None
    }

    /// Route a key. The fields come first, then the sort popup, the info panel
    /// and an open series; ctrl- and alt-modified characters never fall through
    /// to single-letter shortcuts.
    pub fn on_key(&mut self, key: KeyEvent) -> (action: Option<BrowseAction>)
        requires
            old(self)@.wf(),
        ensures
            final(self)@ == old(self)@.after_key(key),
            action == old(self)@.key_action(key),
            final(self)@.wf(),
    {
        proof {
            assert(self.lists.items.len() == self.lists.items@.len());
            assert(self.lists.seasons.len() == self.lists.seasons@.len());
            law_keys_keep_the_screen_well_formed(self@, key);
        }
        if self.inputs.search_focused {
            self.on_search_key(key);
            return None;
        }
        if self.inputs.filter_focused {
            self.on_filter_key(key);
            return None;
        }
        if modified_char(&key) {
            return None;
        }
        if let Some(selected) = self.popups.sort_menu {
            self.on_sort_menu_key(key.code, selected);
            return None;
        }
        if self.popups.info_open {
            self.on_info_key(key.code);
            return if key.code == KeyCode::Char('q') {
                Some(BrowseAction::Quit)
            } else {
                None
            };
        }
        if self.place.series.is_some() {
            return self.on_series_key(key);
        }
        let action: Option<BrowseAction> = self.on_list_key(key.code);
        if action.is_none() {
            self.maybe_fetch_next_page();
        }
        action
    }
}

// Answers.

impl Browse {
    fn take_episodes(&mut self, items: Vec<Arc<MediaItem>>)
        ensures
            final(self)@ == old(self)@.with_episodes(items@),
    {
        self.lists.all_items = items;
        self.build_seasons();
        if self.lists.season_cursor >= self.lists.seasons.len() {
            self.lists.season_cursor = self.lists.seasons.len().saturating_sub(1);
        }
        if self.place.view != SeriesView::Seasons {
            self.rebuild_season_episodes();
        }
    }

    /// Returns true when the server rejected the session token (the caller must
    /// drop to the login screen). Staleness is checked FIRST: a 401 from a
    /// superseded fetch belongs to a token that may since have been replaced by
    /// a re-login, and must not kick the fresh session. A series' episodes are
    /// grouped into seasons, keeping the current sub-view; a fresh top-level
    /// list drops the previous filter.
    #[must_use]
    pub fn on_items_loaded(
        &mut self,
        fetch_gen: u64,
        result: Result<Vec<Arc<MediaItem>>, Error>,
    ) -> (session_over: bool)
        ensures
            final(self)@ == old(self)@.after_items(fetch_gen, listed(result)),
            session_over == (fetch_gen == old(self)@.gens.fetch && rejected(result)),
            old(self)@.wf() ==> final(self)@.wf(),
    {
        proof {
            if self@.wf() {
                law_answers_keep_the_screen_well_formed(
                    self@,
                    fetch_gen,
                    listed(result),
                    0,
                    0,
                    arbitrary(),
                    arbitrary(),
                );
            }
        }
        if fetch_gen != self.gens.fetch {
            return false;
        }
        self.status.loading = false;
        match result {
            Ok(items) => {
                if self.place.series.is_some() {
                    self.take_episodes(items);
                } else {
                    self.lists.all_items = items;
                    self.clear_filter();
                    self.apply_filter();
                }
                false
            },
            Err(Error::Unauthorized) => true,
            Err(err) => {
                self.fail(err);
                false
            },
        }
    }

    fn in_filter_chain(&self) -> (answer: bool)
        ensures
            answer == self@.in_filter_chain(),
    {
        self.inputs.filter_active && !self.uses_server_filter() && self.lists.all_items.len()
            < self.lists.total
    }

    fn take_page(&mut self, start_index: usize, page: ItemsResponse)
        ensures
            final(self)@ == old(self)@.with_page(
                start_index,
                page.items@,
                claimed(page.total_record_count),
            ),
    {
        // A page landed: the chain made progress, so restore the full retry
        // budget for the next page.
        self.status.filter_load_attempts = 0;
        self.lists.total = if page.total_record_count <= 0 {
            0
        } else {
            page.total_record_count as usize
        };
        let page_len: usize = page.items.len();
        let mut items: Vec<Arc<MediaItem>> = page.items;
        if start_index == 0 {
            self.lists.all_items = items;
        } else {
            self.lists.all_items.append(&mut items);
        }
        // Mirrors the page in server-filter mode, narrows it in client-filter
        // mode, so appends respect an active filter.
        self.apply_filter();
        // A client-side filter must see the whole list: keep chain-loading
        // pages while it is active. The non-empty-page guard stops the chain
        // if the server misreports the total.
        if page_len > 0 && self.in_filter_chain() {
            self.next_page();
        }
    }

    /// Same contract as `on_items_loaded`, for Libraries-tab pages. Unlike that
    /// this must NOT clear the filter: either the request was issued with it
    /// (server-side filtering) or the client-side filter is applied to the
    /// accumulated pages right here. A transient error while a client-side
    /// filter loads the list is retried a few times before it is shown.
    #[must_use]
    pub fn on_library_items_loaded(
        &mut self,
        fetch_gen: u64,
        start_index: usize,
        limit: usize,
        result: Result<ItemsResponse, Error>,
    ) -> (session_over: bool)
        ensures
            final(self)@ == old(self)@.after_page(fetch_gen, start_index, limit, paged(result)),
            session_over == (fetch_gen == old(self)@.gens.fetch && rejected(result)),
            old(self)@.wf() ==> final(self)@.wf(),
    {
        proof {
            if self@.wf() {
                law_answers_keep_the_screen_well_formed(
                    self@,
                    fetch_gen,
                    arbitrary(),
                    start_index,
                    limit,
                    paged(result),
                    arbitrary(),
                );
            }
        }
        if fetch_gen != self.gens.fetch {
            return false;
        }
        self.status.loading = false;
        match result {
            Ok(page) => {
                self.take_page(start_index, page);
                false
            },
            Err(Error::Unauthorized) => true,
            Err(err) => {
                let failures: u32 = self.status.filter_load_attempts;
                if self.in_filter_chain() && failures < FILTER_LOAD_MAX_RETRIES {
                    self.status.filter_load_attempts = failures + 1;
                    let delay_ms: u64 = if failures == 0 {
                        500
                    } else if failures == 1 {
                        1000
                    } else {
                        2000
                    };
                    assert(delay_ms == retry_delay(failures));
                    // Retry the exact failed request: its limit may exceed one
                    // page (a position-preserving refresh), so reusing it
                    // avoids shrinking the list to one page then re-growing
                    // it.
                    self.fetch_library_page_after(start_index, limit, delay_ms);
                } else {
                    self.status.filter_load_attempts = 0;
                    self.fail(err);
                }
                false
            },
        }
    }

    /// True means the session expired, whatever the generation. A toggle
    /// *failure* is surfaced even when superseded, so the user always learns
    /// the watched state didn't change; a stale success just repaints on the
    /// newer fetch.
    #[must_use]
    pub fn on_watched_toggled(&mut self, fetch_gen: u64, result: Result<(), Error>) -> (session_over:
        bool)
        ensures
            final(self)@ == old(self)@.after_toggle(fetch_gen, result),
            session_over == rejected(result),
            old(self)@.wf() ==> final(self)@.wf(),
    {
        proof {
            if self@.wf() {
                law_answers_keep_the_screen_well_formed(
                    self@,
                    fetch_gen,
                    arbitrary(),
                    0,
                    0,
                    arbitrary(),
                    result,
                );
            }
        }
        if matches!(result, Err(Error::Unauthorized)) {
            return true;
        }
        if fetch_gen == self.gens.fetch {
            self.status.loading = false;
            self.refetch_in_place();
        }
        // After the refetch, which resets the error line; a toggle failure must
        // outlive the refetch, not flash for a tick.
        if let Err(err) = result {
            self.fail(err);
        }
        false
    }

    /// Refetch after playback so progress/watched state is fresh. A playback
    /// failure (e.g. mpv missing) survives the refetch's error reset; otherwise
    /// it would flash for a single tick and vanish.
    pub fn on_playback_finished(&mut self)
        ensures
            final(self)@ == old(self)@.after_playback(),
            old(self)@.wf() ==> final(self)@.wf(),
    {
        proof {
            if self@.wf() {
                law_answers_keep_the_screen_well_formed(
                    self@,
                    0,
                    arbitrary(),
                    0,
                    0,
                    arbitrary(),
                    arbitrary(),
                );
            }
        }
        let playback_error: Option<String> = self.status.error.take();
        self.refetch_in_place();
        self.status.error = playback_error;
    }

    /// Take in the height of the screen before drawing, and close an info panel
    /// that has nothing to tell.
    pub fn before_draw(&mut self, height: u16)
        ensures
            final(self)@ == old(self)@.measured(height),
            old(self)@.wf() ==> final(self)@.wf(),
    {
        self.status.last_height = height;
        if self.lists.cursor < self.lists.items.len() {
            return;
        }
        if self.place.series.is_some() {
            if self.place.view == SeriesView::EpisodeInfo {
                self.place.view = SeriesView::Episodes;
            }
        } else {
            self.popups.info_open = false;
        }
    }

    /// Take back a scroll that went past the last page of an info panel.
    pub fn clamp_info(&mut self, lines: usize, height: usize)
        ensures
            final(self)@ == old(self)@.with_scroll(
                smaller(
                    old(self)@.popups.info_scroll as int,
                    if lines > height {
                        lines - height
                    } else {
                        0
                    },
                ) as u16,
            ),
    {
        let max_scroll: usize = lines.saturating_sub(height);
        if self.popups.info_scroll as usize > max_scroll {
            self.popups.info_scroll = max_scroll as u16;
        }
    }
}

} // verus!
