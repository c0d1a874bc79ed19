//! The Jellyfin browse screen as a mathematical state: what it holds, and what
//! each key and answer turns it into.

use std::sync::Arc;
use vstd::prelude::*;

use crate::app::{next_gen, KeyCode, KeyEvent};
use crate::apps::jellyfin::browse::{
    BrowseAction, Gens, Place, Popups, SeriesView, FILTER_LOAD_MAX_RETRIES, SPINNER_FRAMES,
};
use crate::apps::jellyfin::library::{
    filters_on_server, has_info, is_playable, kind_of, library_query, menu, seasons_of, wants_more,
    LibraryKind, LibraryLevel, SeasonRow, Sort, Tab, PAGE_SIZE,
};
use crate::apps::jellyfin::msg::{RequestModel, SourceModel};
use crate::jellyfin::{
    description_text, is_watched, title_text, Error, ItemKind, MediaItem, QueryModel,
};
use crate::text::{lowercase, occurs, opt_text};
use crate::ui::input::TextModel;
use crate::ui::list::{last_of, menu_down, raised, stepped, Step};

verus! {

/// The lists as values.
pub struct ListsModel {
    pub all_items: Seq<Arc<MediaItem>>,
    pub items: Seq<Arc<MediaItem>>,
    pub cursor: usize,
    pub seasons: Seq<SeasonRow>,
    pub season_cursor: usize,
    pub total: usize,
}

/// The input fields as values.
pub struct InputsModel {
    pub search: TextModel,
    pub search_focused: bool,
    pub filter: TextModel,
    pub filter_active: bool,
    pub filter_focused: bool,
}

/// The chrome as values.
pub struct StatusModel {
    pub loading: bool,
    pub error: Option<Seq<char>>,
    pub notice: Option<&'static str>,
    pub has_fetched: bool,
    pub show_full_help: bool,
    pub filter_load_attempts: u32,
    pub spinner_frame: usize,
    pub last_height: u16,
}

/// The browse screen as values.
pub struct BrowseModel {
    pub place: Place,
    pub lists: ListsModel,
    pub inputs: InputsModel,
    pub popups: Popups,
    pub status: StatusModel,
    pub gens: Gens,
    pub outbox: Seq<RequestModel>,
}

/// Whether an item's title or description contains the needle, whatever the
/// case.
pub open spec fn item_matches(item: MediaItem, needle: Seq<char>) -> bool {
    occurs(lowercase(title_text(item)), needle) || occurs(
        lowercase(description_text(item)),
        needle,
    )
}

/// The items that match the needle, in order.
pub open spec fn matching(all: Seq<Arc<MediaItem>>, needle: Seq<char>) -> Seq<Arc<MediaItem>>
    decreases all.len(),
{
    if all.len() == 0 {
        Seq::empty()
    } else if item_matches(*all.last(), needle) {
        matching(all.drop_last(), needle).push(all.last())
    } else {
        matching(all.drop_last(), needle)
    }
}

/// The episodes of one season, in order.
pub open spec fn of_season(all: Seq<Arc<MediaItem>>, number: Option<i32>) -> Seq<Arc<MediaItem>>
    decreases all.len(),
{
    if all.len() == 0 {
        Seq::empty()
    } else if all.last().parent_index_number == number {
        of_season(all.drop_last(), number).push(all.last())
    } else {
        of_season(all.drop_last(), number)
    }
}

/// A cursor kept in a list: the last row where it lies behind it.
pub open spec fn kept_in(cursor: usize, len: nat) -> usize {
    if cursor >= len {
        last_of(len as int) as usize
    } else {
        cursor
    }
}

/// A cursor kept in a list: the first row where it lies behind it.
pub open spec fn back_to_top(cursor: usize, len: nat) -> usize {
    if cursor >= len {
        0
    } else {
        cursor
    }
}

/// A list in place of what a request was answered with.
pub open spec fn listed(result: Result<Vec<Arc<MediaItem>>, Error>) -> Result<
    Seq<Arc<MediaItem>>,
    Error,
> {
    match result {
        Ok(list) => Ok(list@),
        Err(err) => Err(err),
    }
}

/// Whether an answer says that the session is over.
pub open spec fn rejected<T>(result: Result<T, Error>) -> bool {
    result matches Err(err) && err is Unauthorized
}

/// The wait before a retry, in milliseconds, doubled with each failure.
pub open spec fn retry_delay(failures: u32) -> u64 {
    if failures == 0 {
        500
    } else if failures == 1 {
        1000
    } else {
        2000
    }
}

/// How many items a page claims that there are; a negative count is none.
pub open spec fn claimed(total_record_count: i32) -> usize {
    if total_record_count <= 0 {
        0
    } else {
        total_record_count as usize
    }
}

impl BrowseModel {
    /// A screen before its first fetch.
    pub open spec fn initial(gen_counter: u64) -> BrowseModel {
        BrowseModel {
            place: Place {
                tab: Tab::Resume,
                level: LibraryLevel::Root,
                series: None,
                view: SeriesView::Seasons,
            },
            lists: ListsModel {
                all_items: Seq::empty(),
                items: Seq::empty(),
                cursor: 0,
                seasons: Seq::empty(),
                season_cursor: 0,
                total: 0,
            },
            inputs: InputsModel {
                search: TextModel::empty(),
                search_focused: false,
                filter: TextModel::empty(),
                filter_active: false,
                filter_focused: false,
            },
            popups: Popups {
                collection_sort: Sort::newest(),
                sort_menu: None,
                info_open: false,
                info_scroll: 0,
            },
            status: StatusModel {
                loading: false,
                error: None,
                notice: None,
                has_fetched: false,
                show_full_help: false,
                filter_load_attempts: 0,
                spinner_frame: 0,
                last_height: 24,
            },
            gens: Gens { counter: gen_counter, fetch: 0 },
            outbox: Seq::empty(),
        }
    }

    /// What always holds of a screen: the cursors lie on rows, the levels of
    /// the libraries are only entered in their tab, a collection lies in a
    /// library of other things, and a filter in focus is active.
    pub open spec fn wf(self) -> bool {
        &&& self.status.spinner_frame < SPINNER_FRAMES
        &&& self.status.filter_load_attempts <= FILTER_LOAD_MAX_RETRIES
        &&& (self.lists.cursor < self.lists.items.len() || self.lists.cursor == 0)
        &&& (self.place.series is Some ==> self.lists.season_cursor < self.lists.seasons.len()
            || self.lists.season_cursor == 0)
        &&& (!(self.place.level is Root) ==> self.place.tab == Tab::Libraries)
        &&& (self.inputs.filter_focused ==> self.inputs.filter_active)
        &&& (self.inputs.search_focused ==> self.place.tab == Tab::Search
            && self.place.series is None)
        &&& (self.popups.sort_menu matches Some(selected) ==> selected < menu().len())
    }

    /// No awaited generation lies ahead of the counter. It holds from the
    /// start and until the counter starts over.
    pub open spec fn gens_in_order(self) -> bool {
        self.gens.fetch <= self.gens.counter
    }

    pub open spec fn sent(self, request: RequestModel) -> BrowseModel {
        BrowseModel { outbox: self.outbox.push(request), ..self }
    }

    pub open spec fn failed(self, err: Error) -> BrowseModel {
        BrowseModel { status: StatusModel { error: Some(err.text()), ..self.status }, ..self }
    }

    pub open spec fn idle(self) -> BrowseModel {
        BrowseModel { status: StatusModel { loading: false, ..self.status }, ..self }
    }

    pub open spec fn with_cursor(self, cursor: usize) -> BrowseModel {
        BrowseModel { lists: ListsModel { cursor, ..self.lists }, ..self }
    }

    pub open spec fn at(self, level: LibraryLevel) -> BrowseModel {
        BrowseModel { place: Place { level, ..self.place }, ..self }
    }

    // Where the user is.

    pub open spec fn current_item(self) -> Option<Arc<MediaItem>> {
        if self.lists.cursor < self.lists.items.len() {
            Some(self.lists.items[self.lists.cursor as int])
        } else {
            None
        }
    }

    /// Whether a library list is on screen, not a series of one.
    pub open spec fn in_libraries(self) -> bool {
        self.place.tab == Tab::Libraries && self.place.series is None
    }

    /// Whether a list below the root of the libraries is on screen.
    pub open spec fn in_library(self) -> bool {
        self.in_libraries() && !(self.place.level is Root)
    }

    pub open spec fn drilled_in(self) -> bool {
        self.place.series is Some || (self.place.tab == Tab::Libraries && !(
        self.place.level is Root))
    }

    pub open spec fn uses_server_filter(self) -> bool {
        self.in_libraries() && filters_on_server(self.place.level)
    }

    /// Only the videos of a collection are sorted by the user.
    pub open spec fn current_sort(self) -> Sort {
        if self.place.level is Collection {
            self.popups.collection_sort
        } else {
            Sort::newest()
        }
    }

    pub open spec fn sort_key_available(self) -> bool {
        self.in_libraries() && self.place.level is Collection
    }

    // Requests.

    /// A fetch started under a generation of its own; any result carrying an
    /// older generation is stale. The connect-time notice has been seen once
    /// the user navigates.
    pub open spec fn begin_fetch(self) -> BrowseModel {
        let gen = next_gen(self.gens.counter);
        BrowseModel {
            status: StatusModel {
                loading: true,
                error: None,
                notice: if self.status.has_fetched {
                    None
                } else {
                    self.status.notice
                },
                has_fetched: true,
                ..self.status
            },
            gens: Gens { counter: gen, fetch: gen },
            ..self
        }
    }

    /// Where the list on screen comes from.
    pub open spec fn source(self) -> SourceModel {
        match self.place.series {
            Some(series) => SourceModel::Episodes(series),
            None => match self.place.tab {
                Tab::Resume => SourceModel::Resume,
                Tab::NextUp => SourceModel::NextUp,
                Tab::RecentlyAdded => SourceModel::RecentlyAdded,
                Tab::Libraries => SourceModel::Nothing,
                Tab::Search => if self.inputs.search.value.len() == 0 {
                    SourceModel::Nothing
                } else {
                    SourceModel::Search(self.inputs.search.value)
                },
            },
        }
    }

    pub open spec fn fetch(self) -> BrowseModel {
        if self.in_libraries() {
            self.fetch_page(0, PAGE_SIZE, 0)
        } else {
            let s = self.begin_fetch();
            s.sent(RequestModel::Items { fetch_gen: s.gens.fetch, source: self.source() })
        }
    }

    /// The term that a page is asked for with: only a filter that runs on the
    /// server.
    pub open spec fn page_filter(self) -> Option<Seq<char>> {
        if self.inputs.filter_active && self.uses_server_filter() {
            Some(self.inputs.filter.value)
        } else {
            None
        }
    }

    /// One page of the level on screen, asked for after a wait. The root is a
    /// single list.
    pub open spec fn fetch_page(
        self,
        start_index: usize,
        limit: usize,
        delay_ms: u64,
    ) -> BrowseModel {
        let s = self.begin_fetch();
        match library_query(
            self.place.level,
            self.current_sort(),
            self.page_filter(),
            start_index,
        ) {
            None => s.sent(
                RequestModel::LibraryPage {
                    fetch_gen: s.gens.fetch,
                    start_index: 0,
                    limit,
                    delay_ms,
                    query: None,
                },
            ),
            Some(query) => s.sent(
                RequestModel::LibraryPage {
                    fetch_gen: s.gens.fetch,
                    start_index,
                    limit,
                    delay_ms,
                    query: Some(QueryModel { limit, ..query }),
                },
            ),
        }
    }

    /// The view fetched anew with every page that was scrolled through.
    pub open spec fn refetch_in_place(self) -> BrowseModel {
        if self.in_library() {
            self.fetch_page(
                0,
                if self.lists.all_items.len() > PAGE_SIZE {
                    self.lists.all_items.len() as usize
                } else {
                    PAGE_SIZE
                },
                0,
            )
        } else {
            self.fetch()
        }
    }

    pub open spec fn next_page(self) -> BrowseModel {
        self.fetch_page(self.lists.all_items.len() as usize, PAGE_SIZE, 0)
    }

    /// The next page where the cursor comes close to the end of what is there.
    pub open spec fn maybe_fetch_next_page(self) -> BrowseModel {
        if self.in_library() && wants_more(
            self.lists.cursor as int,
            self.lists.all_items.len() as int,
            self.lists.total as int,
            self.status.loading,
        ) {
            self.next_page()
        } else {
            self
        }
    }

    pub open spec fn with_attempts(self, filter_load_attempts: u32) -> BrowseModel {
        BrowseModel { status: StatusModel { filter_load_attempts, ..self.status }, ..self }
    }

    /// The rest of a list that is filtered here, so that the filter sees every
    /// item.
    pub open spec fn maybe_start_filter_load(self) -> BrowseModel {
        if self.in_library() && !self.uses_server_filter() && !self.status.loading
            && self.lists.all_items.len() < self.lists.total {
            self.with_attempts(0).next_page()
        } else {
            self
        }
    }

    // The lists.

    pub open spec fn clear_list(self) -> BrowseModel {
        BrowseModel {
            lists: ListsModel { all_items: Seq::empty(), items: Seq::empty(), ..self.lists },
            ..self
        }
    }

    /// The items that the filter leaves: all of them where it is off or empty,
    /// or where the server has filtered already.
    pub open spec fn visible(self) -> Seq<Arc<MediaItem>> {
        if self.uses_server_filter() || !self.inputs.filter_active
            || self.inputs.filter.value.len() == 0 {
            self.lists.all_items
        } else {
            matching(self.lists.all_items, lowercase(self.inputs.filter.value))
        }
    }

    pub open spec fn apply_filter(self) -> BrowseModel {
        BrowseModel {
            lists: ListsModel {
                items: self.visible(),
                cursor: back_to_top(self.lists.cursor, self.visible().len()),
                ..self.lists
            },
            ..self
        }
    }

    pub open spec fn filter_cleared(self) -> BrowseModel {
        BrowseModel {
            inputs: InputsModel {
                filter: self.inputs.filter.cleared(),
                filter_active: false,
                filter_focused: false,
                ..self.inputs
            },
            ..self
        }
    }

    /// A library level just entered: an empty list, and its first page asked
    /// for.
    pub open spec fn enter_new_level(self) -> BrowseModel {
        let s = self.clear_list().filter_cleared().with_attempts(0);
        BrowseModel { lists: ListsModel { cursor: 0, total: 0, ..s.lists }, ..s }.fetch_page(
            0,
            PAGE_SIZE,
            0,
        )
    }

    /// An emptied list, and its first page asked for.
    pub open spec fn restart_list(self) -> BrowseModel {
        self.clear_list().with_cursor(0).fetch_page(0, PAGE_SIZE, 0)
    }

    // Series.

    /// The season under the cursor; none is a season too, the specials.
    pub open spec fn selected_season(self) -> Option<i32> {
        if self.lists.season_cursor < self.lists.seasons.len() {
            self.lists.seasons[self.lists.season_cursor as int].number
        } else {
            None
        }
    }

    /// The list narrowed to the selected season.
    pub open spec fn season_episodes(self) -> BrowseModel {
        let items = of_season(self.lists.all_items, self.selected_season());
        BrowseModel {
            lists: ListsModel {
                items,
                cursor: kept_in(self.lists.cursor, items.len()),
                ..self.lists
            },
            ..self
        }
    }

    pub open spec fn viewing(self, view: SeriesView) -> BrowseModel {
        BrowseModel { place: Place { view, ..self.place }, ..self }
    }

    pub open spec fn enter_season(self) -> BrowseModel {
        if self.lists.season_cursor >= self.lists.seasons.len() {
            self
        } else {
            self.with_cursor(0).viewing(SeriesView::Episodes).season_episodes()
        }
    }

    pub open spec fn open_series(self, series: Arc<MediaItem>) -> BrowseModel {
        BrowseModel {
            place: Place { series: Some(series), view: SeriesView::Seasons, ..self.place },
            lists: ListsModel {
                season_cursor: 0,
                seasons: Seq::empty(),
                cursor: 0,
                ..self.lists
            },
            ..self
        }.fetch()
    }

    /// Back to the tab's list. Nothing of the series stays playable until that
    /// arrives.
    pub open spec fn leave_series(self) -> BrowseModel {
        BrowseModel {
            place: Place { series: None, view: SeriesView::Seasons, ..self.place },
            lists: ListsModel {
                items: Seq::empty(),
                seasons: Seq::empty(),
                cursor: 0,
                ..self.lists
            },
            ..self
        }.fetch()
    }

    /// The watched flag of the item under the cursor flipped, where it is
    /// something that is played.
    pub open spec fn toggle_watched(self) -> BrowseModel {
        match self.current_item() {
            Some(item) => if is_playable(*item) {
                BrowseModel { status: StatusModel { loading: true, ..self.status }, ..self }.sent(
                    RequestModel::SetWatched {
                        fetch_gen: self.gens.fetch,
                        item_id: item.id@,
                        watched: !is_watched(*item),
                    },
                )
            } else {
                self
            },
            None => self,
        }
    }

    // Keys.

    pub open spec fn search_key(self, key: KeyEvent) -> BrowseModel {
        let unfocused = BrowseModel {
            inputs: InputsModel { search_focused: false, ..self.inputs },
            ..self
        };
        let s = match key.code {
            KeyCode::Esc => unfocused,
            KeyCode::Enter
            | KeyCode::Tab
            | KeyCode::BackTab
            | KeyCode::Up
            | KeyCode::Down => if self.inputs.search.value.len() > 0 {
                unfocused.clear_list().with_cursor(0).fetch()
            } else {
                unfocused.with_cursor(0).fetch()
            },
            _ => BrowseModel {
                inputs: InputsModel { search: self.inputs.search.typed(key), ..self.inputs },
                ..self
            },
        };
        BrowseModel {
            inputs: InputsModel {
                search: s.inputs.search.with_focus(s.inputs.search_focused),
                ..s.inputs
            },
            ..s
        }
    }

    /// A key in a filter that runs on the server: leaving the field applies it.
    pub open spec fn server_filter_key(self, key: KeyEvent) -> BrowseModel {
        match key.code {
            KeyCode::Esc => self.filter_cleared().restart_list(),
            KeyCode::Enter
            | KeyCode::Tab
            | KeyCode::BackTab
            | KeyCode::Up
            | KeyCode::Down => BrowseModel {
                inputs: InputsModel {
                    filter_focused: false,
                    filter_active: self.inputs.filter_active && self.inputs.filter.value.len() > 0,
                    ..self.inputs
                },
                ..self
            }.restart_list(),
            _ => BrowseModel {
                inputs: InputsModel { filter: self.inputs.filter.typed(key), ..self.inputs },
                ..self
            },
        }
    }

    /// A key in a filter that runs here, on what is typed.
    pub open spec fn local_filter_key(self, key: KeyEvent) -> BrowseModel {
        match key.code {
            KeyCode::Esc => self.filter_cleared().apply_filter(),
            KeyCode::Enter
            | KeyCode::Tab
            | KeyCode::BackTab
            | KeyCode::Up
            | KeyCode::Down => BrowseModel {
                inputs: InputsModel { filter_focused: false, ..self.inputs },
                ..self
            },
            _ => if self.inputs.filter.edits(key) {
                BrowseModel {
                    inputs: InputsModel { filter: self.inputs.filter.typed(key), ..self.inputs },
                    ..self
                }.apply_filter()
            } else {
                self
            },
        }
    }

    pub open spec fn filter_key(self, key: KeyEvent) -> BrowseModel {
        let s = if self.uses_server_filter() {
            self.server_filter_key(key)
        } else {
            self.local_filter_key(key)
        };
        BrowseModel {
            inputs: InputsModel {
                filter: s.inputs.filter.with_focus(s.inputs.filter_focused),
                ..s.inputs
            },
            ..s
        }
    }

    pub open spec fn sort_menu_key(self, code: KeyCode) -> BrowseModel {
        let selected = self.popups.sort_menu->0;
        let closed = BrowseModel { popups: Popups { sort_menu: None, ..self.popups }, ..self };
        match code {
            KeyCode::Up => BrowseModel {
                popups: Popups { sort_menu: Some(raised(selected, 1)), ..self.popups },
                ..self
            },
            KeyCode::Down => BrowseModel {
                popups: Popups { sort_menu: Some(menu_down(selected, 6)), ..self.popups },
                ..self
            },
            KeyCode::Enter => {
                let sort = if selected < 6 {
                    menu()[selected as int]
                } else {
                    Sort::newest()
                };
                if sort != self.popups.collection_sort {
                    BrowseModel {
                        popups: Popups { collection_sort: sort, ..closed.popups },
                        ..closed
                    }.restart_list()
                } else {
                    closed
                }
            },
            KeyCode::Esc | KeyCode::Char('q') | KeyCode::Char('v') => closed,
            _ => self,
        }
    }

    /// The rows of a page of an info panel.
    pub open spec fn info_page(self) -> u16 {
        if self.status.last_height > 5 {
            (self.status.last_height - 4) as u16
        } else {
            1
        }
    }

    pub open spec fn with_scroll(self, info_scroll: u16) -> BrowseModel {
        BrowseModel { popups: Popups { info_scroll, ..self.popups }, ..self }
    }

    pub open spec fn scrolled_up(self, rows: u16) -> BrowseModel {
        self.with_scroll(
            if self.popups.info_scroll > rows {
                (self.popups.info_scroll - rows) as u16
            } else {
                0
            },
        )
    }

    /// The panel scrolled down; drawing takes back what is too far.
    pub open spec fn scrolled_down(self, rows: u16) -> BrowseModel {
        self.with_scroll(
            if self.popups.info_scroll + rows > u16::MAX {
                u16::MAX
            } else {
                (self.popups.info_scroll + rows) as u16
            },
        )
    }

    /// The keys that scroll an info panel.
    pub open spec fn scroll_key(self, code: KeyCode) -> BrowseModel {
        match code {
            KeyCode::Up => self.scrolled_up(1),
            KeyCode::Down => self.scrolled_down(1),
            KeyCode::PageUp | KeyCode::Left => self.scrolled_up(self.info_page()),
            KeyCode::PageDown | KeyCode::Right => self.scrolled_down(self.info_page()),
            KeyCode::Home | KeyCode::Char('g') => self.with_scroll(0),
            KeyCode::End | KeyCode::Char('G') => self.with_scroll(u16::MAX),
            _ => self,
        }
    }

    pub open spec fn info_key(self, code: KeyCode) -> BrowseModel {
        match code {
            KeyCode::Esc | KeyCode::Backspace | KeyCode::Char('i') => BrowseModel {
                popups: Popups { info_open: false, info_scroll: 0, ..self.popups },
                ..self
            },
            _ => self.scroll_key(code),
        }
    }

    pub open spec fn help_toggled(self) -> BrowseModel {
        BrowseModel {
            status: StatusModel { show_full_help: !self.status.show_full_help, ..self.status },
            ..self
        }
    }

    /// The rows a page key jumps.
    pub open spec fn page_jump(self) -> usize {
        if self.status.last_height / 5 == 0 {
            1
        } else {
            (self.status.last_height / 5) as usize
        }
    }

    pub open spec fn move_cursor(self, step: Step) -> BrowseModel {
        self.with_cursor(
            stepped(
                step,
                self.lists.cursor,
                self.lists.items.len() as usize,
                self.page_jump(),
            ),
        )
    }

    pub open spec fn move_season(self, step: Step) -> BrowseModel {
        BrowseModel {
            lists: ListsModel {
                season_cursor: stepped(
                    step,
                    self.lists.season_cursor,
                    self.lists.seasons.len() as usize,
                    self.page_jump(),
                ),
                ..self.lists
            },
            ..self
        }
    }

    pub open spec fn seasons_key(self, code: KeyCode) -> BrowseModel {
        match code {
            KeyCode::Up | KeyCode::Char('k') => self.move_season(Step::Up),
            KeyCode::Down | KeyCode::Char('j') => self.move_season(Step::Down),
            KeyCode::PageUp | KeyCode::Left | KeyCode::Char('b') | KeyCode::Char(
                'u',
            ) => self.move_season(Step::PageUp),
            KeyCode::PageDown | KeyCode::Right | KeyCode::Char('f') | KeyCode::Char(
                'd',
            ) => self.move_season(Step::PageDown),
            KeyCode::Home | KeyCode::Char('g') => self.move_season(Step::Home),
            KeyCode::End | KeyCode::Char('G') => self.move_season(Step::End),
            KeyCode::Enter | KeyCode::Char(' ') => self.enter_season(),
            KeyCode::Esc | KeyCode::Backspace => self.leave_series(),
            KeyCode::Char('r') => self.fetch(),
            KeyCode::Char('?') => self.help_toggled(),
            _ => self,
        }
    }

    pub open spec fn episodes_key(self, code: KeyCode) -> BrowseModel {
        match code {
            KeyCode::Up | KeyCode::Char('k') => self.move_cursor(Step::Up),
            KeyCode::Down | KeyCode::Char('j') => self.move_cursor(Step::Down),
            KeyCode::PageUp | KeyCode::Left | KeyCode::Char('b') | KeyCode::Char(
                'u',
            ) => self.move_cursor(Step::PageUp),
            KeyCode::PageDown | KeyCode::Right | KeyCode::Char('f') | KeyCode::Char(
                'd',
            ) => self.move_cursor(Step::PageDown),
            KeyCode::Home | KeyCode::Char('g') => self.move_cursor(Step::Home),
            KeyCode::End | KeyCode::Char('G') => self.move_cursor(Step::End),
            KeyCode::Char('i') => if self.lists.items.len() > 0 {
                self.viewing(SeriesView::EpisodeInfo).with_scroll(0)
            } else {
                self
            },
            KeyCode::Char('w') => self.toggle_watched(),
            KeyCode::Esc | KeyCode::Backspace => self.viewing(SeriesView::Seasons).with_cursor(0),
            KeyCode::Char('r') => self.fetch(),
            KeyCode::Char('?') => self.help_toggled(),
            _ => self,
        }
    }

    pub open spec fn episode_info_key(self, code: KeyCode) -> BrowseModel {
        match code {
            KeyCode::Esc | KeyCode::Backspace | KeyCode::Char('i') => self.viewing(
                SeriesView::Episodes,
            ).with_scroll(0),
            KeyCode::Char('?') => self.help_toggled(),
            _ => self.scroll_key(code),
        }
    }

    pub open spec fn series_key(self, code: KeyCode) -> BrowseModel {
        match self.place.view {
            SeriesView::Seasons => self.seasons_key(code),
            SeriesView::Episodes => self.episodes_key(code),
            SeriesView::EpisodeInfo => self.episode_info_key(code),
        }
    }

    /// Another tab, from the start.
    pub open spec fn on_tab(self, tab: Tab) -> BrowseModel {
        let s = self.clear_list();
        BrowseModel {
            place: Place { tab, level: LibraryLevel::Root, ..s.place },
            lists: ListsModel { cursor: 0, total: 0, ..s.lists },
            ..s
        }.fetch()
    }

    pub open spec fn slash_key(self) -> BrowseModel {
        if self.place.tab == Tab::Search && self.place.series is None {
            BrowseModel {
                inputs: InputsModel {
                    search_focused: true,
                    search: self.inputs.search.with_focus(true),
                    ..self.inputs
                },
                ..self
            }
        } else if self.in_libraries() && self.place.level is Root {
            self
        } else {
            BrowseModel {
                inputs: InputsModel {
                    filter_active: true,
                    filter_focused: true,
                    filter: self.inputs.filter.with_focus(true),
                    ..self.inputs
                },
                ..self
            }.maybe_start_filter_load()
        }
    }

    /// One library level up. A collection lies in a library of other things.
    pub open spec fn pop_level(self) -> BrowseModel {
        match self.place.level {
            LibraryLevel::Collection { library, .. } => self.at(
                LibraryLevel::Library { library, kind: LibraryKind::Other },
            ).enter_new_level(),
            LibraryLevel::Library { .. } => self.at(LibraryLevel::Root).enter_new_level(),
            LibraryLevel::Root => self,
        }
    }

    pub open spec fn filter_dropped(self) -> BrowseModel {
        let s = BrowseModel {
            inputs: InputsModel {
                filter: self.inputs.filter.cleared(),
                filter_active: false,
                ..self.inputs
            },
            ..self
        };
        if self.uses_server_filter() {
            s.restart_list()
        } else {
            s.apply_filter()
        }
    }

    pub open spec fn back_key(self, code: KeyCode) -> BrowseModel {
        if self.inputs.filter_active && code == KeyCode::Esc {
            self.filter_dropped()
        } else if self.in_libraries() && !self.inputs.filter_active {
            self.pop_level()
        } else if self.place.tab == Tab::Search && code == KeyCode::Esc
            && self.inputs.search.value.len() > 0 {
            BrowseModel {
                inputs: InputsModel { search: self.inputs.search.cleared(), ..self.inputs },
                ..self
            }.with_cursor(0).fetch()
        } else {
            self
        }
    }

    /// Whether opening an item enters a library level, and which.
    pub open spec fn level_below(self, item: Arc<MediaItem>) -> Option<LibraryLevel> {
        if !self.in_libraries() {
            None
        } else {
            match self.place.level {
                LibraryLevel::Root => Some(
                    LibraryLevel::Library {
                        library: item,
                        kind: kind_of(opt_text(item.collection_type)),
                    },
                ),
                LibraryLevel::Library { library, kind } => if kind == LibraryKind::Other
                    && item.kind == ItemKind::BoxSet {
                    Some(LibraryLevel::Collection { library, collection: item })
                } else {
                    None
                },
                LibraryLevel::Collection { .. } => None,
            }
        }
    }

    /// The item under the cursor opened, where it is something to open.
    pub open spec fn open_key(self) -> BrowseModel {
        match self.current_item() {
            None => self,
            Some(item) => match self.level_below(item) {
                Some(level) => if level is Collection {
                    BrowseModel {
                        popups: Popups { collection_sort: Sort::newest(), ..self.popups },
                        ..self.at(level)
                    }.enter_new_level()
                } else {
                    self.at(level).enter_new_level()
                },
                None => if item.kind == ItemKind::Series {
                    self.open_series(item)
                } else {
                    self
                },
            },
        }
    }

    /// What opening an item plays: anything that is neither entered nor a
    /// container.
    pub open spec fn plays(self) -> Option<Arc<MediaItem>> {
        match self.current_item() {
            None => None,
            Some(item) => if self.level_below(item) is Some || item.kind == ItemKind::Series
                || item.kind == ItemKind::BoxSet || item.kind == ItemKind::CollectionFolder {
                None
            } else {
                Some(item)
            },
        }
    }

    pub open spec fn open_info(self) -> BrowseModel {
        match self.current_item() {
            Some(item) => if has_info(*item) {
                BrowseModel {
                    popups: Popups { info_open: true, info_scroll: 0, ..self.popups },
                    ..self
                }
            } else {
                self
            },
            None => self,
        }
    }

    /// A key on a list with nothing in the way, before the next page is
    /// considered.
    pub open spec fn list_key(self, code: KeyCode) -> BrowseModel {
        match code {
            KeyCode::Up | KeyCode::Char('k') => self.move_cursor(Step::Up),
            KeyCode::Down | KeyCode::Char('j') => self.move_cursor(Step::Down),
            KeyCode::PageUp | KeyCode::Char('b') | KeyCode::Char('u') => self.move_cursor(
                Step::PageUp,
            ),
            KeyCode::PageDown | KeyCode::Char('f') | KeyCode::Char('d') => self.move_cursor(
                Step::PageDown,
            ),
            KeyCode::Home | KeyCode::Char('g') => self.move_cursor(Step::Home),
            KeyCode::End | KeyCode::Char('G') => self.move_cursor(Step::End),
            KeyCode::Tab | KeyCode::Char('l') => if self.drilled_in() {
                self
            } else {
                self.on_tab(Tab::at(self.place.tab.place() + 1))
            },
            KeyCode::BackTab | KeyCode::Char('h') => if self.drilled_in() {
                self
            } else {
                self.on_tab(Tab::at(self.place.tab.place() + 4))
            },
            KeyCode::Right => if self.drilled_in() {
                self.move_cursor(Step::PageDown)
            } else {
                self.on_tab(Tab::at(self.place.tab.place() + 1))
            },
            KeyCode::Left => if self.drilled_in() {
                self.move_cursor(Step::PageUp)
            } else {
                self.on_tab(Tab::at(self.place.tab.place() + 4))
            },
            KeyCode::Char('/') => self.slash_key(),
            KeyCode::Esc | KeyCode::Backspace => self.back_key(code),
            KeyCode::Enter | KeyCode::Char(' ') => self.open_key(),
            KeyCode::Char('v') => if self.sort_key_available() {
                BrowseModel {
                    popups: Popups {
                        sort_menu: Some(self.popups.collection_sort.place() as usize),
                        ..self.popups
                    },
                    ..self
                }
            } else {
                self
            },
            KeyCode::Char('w') => self.toggle_watched(),
            KeyCode::Char('i') => self.open_info(),
            KeyCode::Char('r') => self.fetch(),
            KeyCode::Char('?') => self.help_toggled(),
            _ => self,
        }
    }

    /// What a key on a list asks of the app.
    pub open spec fn list_action(self, code: KeyCode) -> Option<BrowseAction> {
        match code {
            KeyCode::Enter | KeyCode::Char(' ') => match self.plays() {
                Some(item) => Some(BrowseAction::Play(item)),
                None => None,
            },
            KeyCode::Char('q') => Some(BrowseAction::Quit),
            _ => None,
        }
    }

    /// What a key on a series asks of the app.
    pub open spec fn series_action(self, code: KeyCode) -> Option<BrowseAction> {
        if code == KeyCode::Char('q') {
            Some(BrowseAction::Quit)
        } else if (self.place.view == SeriesView::Episodes && (code == KeyCode::Enter || code
            == KeyCode::Char(' '))) || (self.place.view == SeriesView::EpisodeInfo && code
            == KeyCode::Enter) {
            match self.current_item() {
                Some(item) => Some(BrowseAction::Play(item)),
                None => None,
            }
        } else {
            None
        }
    }

    /// The screen after a key.
    pub open spec fn after_key(self, key: KeyEvent) -> BrowseModel {
        if self.inputs.search_focused {
            self.search_key(key)
        } else if self.inputs.filter_focused {
            self.filter_key(key)
        } else if key.is_modified_char() {
            self
        } else if self.popups.sort_menu is Some {
            self.sort_menu_key(key.code)
        } else if self.popups.info_open {
            self.info_key(key.code)
        } else if self.place.series is Some {
            self.series_key(key.code)
        } else if self.list_action(key.code) is Some {
            self
        } else {
            self.list_key(key.code).maybe_fetch_next_page()
        }
    }

    /// What a key asks of the app.
    pub open spec fn key_action(self, key: KeyEvent) -> Option<BrowseAction> {
        if self.inputs.search_focused || self.inputs.filter_focused || key.is_modified_char()
            || self.popups.sort_menu is Some {
            None
        } else if self.popups.info_open {
            if key.code == KeyCode::Char('q') {
                Some(BrowseAction::Quit)
            } else {
                None
            }
        } else if self.place.series is Some {
            self.series_action(key.code)
        } else {
            self.list_action(key.code)
        }
    }

    // Ticks.

    pub open spec fn after_tick(self) -> BrowseModel {
        if self.status.loading {
            BrowseModel {
                status: StatusModel {
                    spinner_frame: ((self.status.spinner_frame + 1) % SPINNER_FRAMES as int) as usize,
                    ..self.status
                },
                ..self
            }
        } else {
            self
        }
    }

    // Answers.

    /// The episodes of the open series: its seasons, and the season on screen
    /// where one is.
    pub open spec fn with_episodes(self, list: Seq<Arc<MediaItem>>) -> BrowseModel {
        let seasons = seasons_of(list);
        let s = BrowseModel {
            lists: ListsModel {
                all_items: list,
                seasons,
                season_cursor: kept_in(self.lists.season_cursor, seasons.len()),
                ..self.lists
            },
            ..self
        };
        if self.place.view == SeriesView::Seasons {
            s
        } else {
            s.season_episodes()
        }
    }

    pub open spec fn after_items(
        self,
        fetch_gen: u64,
        result: Result<Seq<Arc<MediaItem>>, Error>,
    ) -> BrowseModel {
        if fetch_gen != self.gens.fetch {
            self
        } else {
            let s = self.idle();
            match result {
                Ok(list) => if self.place.series is Some {
                    s.with_episodes(list)
                } else {
                    BrowseModel {
                        lists: ListsModel { all_items: list, ..s.lists },
                        ..s
                    }.filter_cleared().apply_filter()
                },
                Err(err) => if err is Unauthorized {
                    s
                } else {
                    s.failed(err)
                },
            }
        }
    }

    /// Whether the list has to be loaded on for the filter to see all of it.
    pub open spec fn in_filter_chain(self) -> bool {
        self.inputs.filter_active && !self.uses_server_filter() && self.lists.all_items.len()
            < self.lists.total
    }

    /// A page that arrived: the first one replaces the list, any other one
    /// continues it.
    pub open spec fn with_page(
        self,
        start_index: usize,
        list: Seq<Arc<MediaItem>>,
        total: usize,
    ) -> BrowseModel {
        let s = self.with_attempts(0);
        let t = BrowseModel {
            lists: ListsModel {
                total,
                all_items: if start_index == 0 {
                    list
                } else {
                    s.lists.all_items + list
                },
                ..s.lists
            },
            ..s
        }.apply_filter();
        if list.len() > 0 && t.in_filter_chain() {
            t.next_page()
        } else {
            t
        }
    }

    pub open spec fn after_page(
        self,
        fetch_gen: u64,
        start_index: usize,
        limit: usize,
        result: Result<(Seq<Arc<MediaItem>>, i32), Error>,
    ) -> BrowseModel {
        if fetch_gen != self.gens.fetch {
            self
        } else {
            let s = self.idle();
            match result {
                Ok((list, total)) => s.with_page(start_index, list, claimed(total)),
                Err(err) => if err is Unauthorized {
                    s
                } else if s.in_filter_chain() && s.status.filter_load_attempts
                    < FILTER_LOAD_MAX_RETRIES {
                    let failures = s.status.filter_load_attempts;
                    s.with_attempts((failures + 1) as u32).fetch_page(
                        start_index,
                        limit,
                        retry_delay(failures),
                    )
                } else {
                    s.with_attempts(0).failed(err)
                },
            }
        }
    }

    /// A failed toggle is shown even when the view has moved on.
    pub open spec fn after_toggle(self, fetch_gen: u64, result: Result<(), Error>) -> BrowseModel {
        if rejected(result) {
            self
        } else {
            let s = if fetch_gen == self.gens.fetch {
                self.idle().refetch_in_place()
            } else {
                self
            };
            match result {
                Err(err) => s.failed(err),
                Ok(_) => s,
            }
        }
    }

    /// The view fetched anew after playback; an error that playback left stays.
    pub open spec fn after_playback(self) -> BrowseModel {
        let s = self.refetch_in_place();
        BrowseModel { status: StatusModel { error: self.status.error, ..s.status }, ..s }
    }

    /// The screen about to be drawn at a height: an info panel with nothing to
    /// tell closes.
    pub open spec fn measured(self, height: u16) -> BrowseModel {
        let s = BrowseModel { status: StatusModel { last_height: height, ..self.status }, ..self };
        if self.current_item() is Some {
            s
        } else if self.place.series is Some {
            if self.place.view == SeriesView::EpisodeInfo {
                s.viewing(SeriesView::Episodes)
            } else {
                s
            }
        } else {
            BrowseModel { popups: Popups { info_open: false, ..s.popups }, ..s }
        }
    }
}

} // verus!
