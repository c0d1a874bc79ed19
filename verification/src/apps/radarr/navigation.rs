//! Where the keys of the Radarr browse screen lead: from page to page, from
//! row to row, and to what a filter or an order leaves on screen.

use std::sync::Arc;
use vstd::prelude::*;

use crate::app::{KeyCode, KeyEvent};
use crate::apps::downloads::DownloadsModel;
use crate::apps::radarr::actions::{press, same_but_popups, unobstructed};
use crate::apps::radarr::browse::Level;
use crate::apps::radarr::msg::RequestModel;
use crate::apps::radarr::state::{
    matching, AddModel, BrowseModel, ListsModel, PopupsModel,
};
use crate::radarr::Movie;
use crate::text::{blank, lowercase, occurs};

verus! {

// Pages.

/// Opening a row of the list opens the page of the movie in that row and asks
/// the server for nothing; without a row nothing happens.
pub proof fn law_the_highlighted_movie_is_opened(s: BrowseModel)
    requires
        unobstructed(s),
        s.level is MovieList,
    ensures
        press(s, KeyCode::Char(' ')) == press(s, KeyCode::Enter),
        s.lists.movie_cursor < s.lists.movies.len() ==> {
            let t = press(s, KeyCode::Enter);
            &&& t.level == (Level::MovieDetail {
                movie: s.lists.movies[s.lists.movie_cursor as int],
            })
            &&& t.overview.scroll == 0
            &&& t.overview.fullscreen == s.overview.fullscreen
            &&& t.lists == s.lists
            &&& t.outbox == s.outbox
            &&& t.gens == s.gens
        },
        s.lists.movie_cursor >= s.lists.movies.len() ==> press(s, KeyCode::Enter) == s,
{
}

/// Going back leads from the releases to their movie's page, and from every
/// other page to the list, with the list and its cursor as they were. It asks
/// the server for nothing.
pub proof fn law_going_back_leads_up(s: BrowseModel, back: KeyCode)
    requires
        unobstructed(s),
        back == KeyCode::Esc || back == KeyCode::Backspace,
    ensures
        ({
            let t = press(s, back);
            &&& t.outbox == s.outbox
            &&& t.lists.all_movies == s.lists.all_movies
            &&& t.lists.queue == s.lists.queue
            &&& t.monitors == s.monitors
            &&& match s.level {
                Level::Search { movie } => {
                    &&& t.level == (Level::MovieDetail { movie })
                    &&& t.lists.releases.len() == 0
                    &&& t.lists.history.len() == 0
                    &&& t.lists.movies == s.lists.movies
                    &&& t.lists.movie_cursor == s.lists.movie_cursor
                },
                Level::MovieDetail { .. } => {
                    &&& t.level is MovieList
                    &&& t.lists == s.lists
                },
                Level::Downloads => {
                    &&& t.level is MovieList
                    &&& t.lists == s.lists
                    &&& t.downloads.cursor == 0
                    &&& t.downloads.marks == Set::<i64>::empty()
                    &&& t.downloads.prompt is None
                },
                Level::Add => {
                    &&& t.level is MovieList
                    &&& t.lists == s.lists
                    &&& t.add.results.len() == 0
                    &&& t.add.raw.len() == 0
                    &&& t.add.search.value.len() == 0
                    &&& !t.add.submitting
                    &&& t.add.root_folders == s.add.root_folders
                    &&& t.add.quality_profiles == s.add.quality_profiles
                },
                Level::MovieList => t.level is MovieList && (!s.filter.active ==> t == s),
            }
        }),
{
}

/// Coming back from a movie's page shows the list on the movie that was opened.
pub proof fn law_the_list_is_left_where_it_was(s: BrowseModel)
    requires
        unobstructed(s),
        s.level is MovieList,
        s.lists.movie_cursor < s.lists.movies.len(),
    ensures
        ({
            let t = press(press(s, KeyCode::Enter), KeyCode::Esc);
            &&& t.level is MovieList
            &&& t.lists == s.lists
            &&& t.filter == s.filter
            &&& t.outbox == s.outbox
        }),
{
}

/// From the list, `d` opens the downloads with nothing marked and refreshes the
/// queue; `a` opens the add screen with an empty search box in focus, and asks
/// for the folders and profiles exactly where some are missing.
pub proof fn law_pages_open_from_the_list(s: BrowseModel)
    requires
        unobstructed(s),
        s.level is MovieList,
    ensures
        ({
            let t = press(s, KeyCode::Char('d'));
            &&& t.level is Downloads
            &&& t.downloads.cursor == 0
            &&& t.downloads.marks == Set::<i64>::empty()
            &&& t.lists == s.lists
            &&& t.outbox == if s.status.queue_loading {
                s.outbox
            } else {
                s.outbox.push(RequestModel::Queue { queue_gen: t.gens.queue })
            }
        }),
        ({
            let t = press(s, KeyCode::Char('a'));
            &&& t.level is Add
            &&& t.add.search_focused
            &&& t.add.search.focused
            &&& t.add.search.value.len() == 0
            &&& t.add.results.len() == 0
            &&& t.add.raw.len() == 0
            &&& t.add.cursor == 0
            &&& t.lists == s.lists
            &&& t.add.root_folders == s.add.root_folders
            &&& t.add.quality_profiles == s.add.quality_profiles
            &&& t.outbox == if s.add.root_folders.len() > 0 && s.add.quality_profiles.len() > 0 {
                s.outbox
            } else {
                s.outbox.push(RequestModel::AddOptions { prereq_gen: t.gens.add_prereq })
            }
        }),
{
}

/// Refreshing asks for what the page shows: the movies and the queue, the
/// releases and the history of the movie that is searched for, the queue, or
/// what was looked up.
pub proof fn law_refreshing_asks_for_what_is_shown(s: BrowseModel)
    requires
        unobstructed(s),
    ensures
        ({
            let t = press(s, KeyCode::Char('r'));
            let f = t.gens.fetch;
            &&& t.level == s.level
            &&& t.lists.all_movies == s.lists.all_movies
            &&& t.lists.movies == s.lists.movies
            &&& t.lists.queue == s.lists.queue
            &&& match s.level {
                Level::MovieList | Level::MovieDetail { .. } => t.outbox == if s.status.queue_loading {
                    s.outbox.push(RequestModel::Movies { fetch_gen: f })
                } else {
                    s.outbox.push(RequestModel::Movies { fetch_gen: f }).push(
                        RequestModel::Queue { queue_gen: t.gens.queue },
                    )
                },
                Level::Search { movie } => t.outbox == s.outbox.push(
                    RequestModel::Releases { fetch_gen: f, movie_id: movie.id },
                ).push(RequestModel::History { fetch_gen: f, movie_id: movie.id }),
                Level::Downloads => t.outbox == if s.status.queue_loading {
                    s.outbox
                } else {
                    s.outbox.push(RequestModel::Queue { queue_gen: t.gens.queue })
                },
                Level::Add => t.outbox == if blank(s.add.search.value) {
                    s.outbox.push(RequestModel::AddOptions { prereq_gen: t.gens.add_prereq })
                } else {
                    s.outbox.push(RequestModel::AddOptions { prereq_gen: t.gens.add_prereq }).push(
                        RequestModel::Lookup {
                            add_lookup_gen: t.gens.add_lookup,
                            term: s.add.search.value,
                        },
                    )
                },
            }
        }),
{
}

/// The overview of an open movie fills the screen on `v`, is scrolled by rows
/// and pages, and is left the way it was entered; nothing else changes.
pub proof fn law_the_overview_opens_and_closes(s: BrowseModel)
    requires
        unobstructed(s),
        s.level is MovieDetail,
    ensures
        ({
            let t = press(s, KeyCode::Char('v'));
            let down = press(t, KeyCode::Down);
            let page = if s.status.last_height > 5 {
                s.status.last_height - 4
            } else {
                1
            };
            &&& t.overview.fullscreen
            &&& t.overview.scroll == 0
            &&& t.level == s.level
            &&& t.lists == s.lists
            &&& t.outbox == s.outbox
            &&& down.overview.scroll == 1
            &&& down.overview.fullscreen
            &&& press(t, KeyCode::PageDown).overview.scroll == page
            &&& press(press(t, KeyCode::PageDown), KeyCode::PageUp).overview.scroll == 0
            &&& press(down, KeyCode::Up).overview.scroll == 0
            &&& press(down, KeyCode::Home).overview.scroll == 0
            &&& !press(down, KeyCode::Esc).overview.fullscreen
            &&& !press(down, KeyCode::Char('v')).overview.fullscreen
            &&& press(down, KeyCode::Esc).level == s.level
            &&& press(down, KeyCode::Esc).lists == s.lists
        }),
{
}

/// The reasons for which the highlighted release was rejected open on `x`,
/// where there are some, and are left without a trace.
pub proof fn law_rejections_are_those_of_the_highlighted_release(s: BrowseModel)
    requires
        unobstructed(s),
        s.level is Search,
    ensures
        ({
            let t = press(s, KeyCode::Char('x'));
            let some = s.lists.release_cursor < s.lists.releases.len()
                && s.lists.releases[s.lists.release_cursor as int].rejections@.len() > 0;
            &&& t.popups.rejections == if some {
                Some(0usize)
            } else {
                None
            }
            &&& same_but_popups(t, s)
            &&& some && s.lists.releases[s.lists.release_cursor as int].rejections@.len() > 1
                ==> press(t, KeyCode::Down).popups.rejections == Some(1usize)
            &&& some ==> press(press(t, KeyCode::Down), KeyCode::Up).popups.rejections == Some(
                0usize,
            )
            &&& some ==> same_but_popups(press(t, KeyCode::Esc), s) && press(
                t,
                KeyCode::Esc,
            ).popups.rejections is None
        }),
{
}

/// Help is shown and hidden by the same key, and `q` changes nothing but asks
/// to quit.
pub proof fn law_help_and_quitting(s: BrowseModel, key: KeyEvent)
    requires
        unobstructed(s),
        key.code == KeyCode::Char('q'),
        !key.is_modified_char(),
    ensures
        press(s, KeyCode::Char('?')).status.show_full_help == !s.status.show_full_help,
        press(press(s, KeyCode::Char('?')), KeyCode::Char('?')) == s,
        press(s, KeyCode::Char('?')).outbox == s.outbox,
        s.quits(key),
        s.after_key(key) == s,
{
}

// Rows.

/// The row in focus on a page with rows.
pub open spec fn row(s: BrowseModel) -> int {
    match s.level {
        Level::MovieList => s.lists.movie_cursor as int,
        Level::Search { .. } => s.lists.release_cursor as int,
        Level::Add => s.add.cursor as int,
        Level::Downloads => s.downloads.cursor as int,
        Level::MovieDetail { .. } => 0,
    }
}

/// How many rows a page has.
pub open spec fn rows(s: BrowseModel) -> int {
    match s.level {
        Level::MovieList => s.lists.movies.len() as int,
        Level::Search { .. } => s.lists.releases.len() as int,
        Level::Add => s.add.results.len() as int,
        Level::Downloads => s.lists.queue.len() as int,
        Level::MovieDetail { .. } => 0,
    }
}

/// The page with another row in focus and nothing else changed.
pub open spec fn on_row(s: BrowseModel, at: int) -> BrowseModel {
    match s.level {
        Level::MovieList => BrowseModel {
            lists: ListsModel { movie_cursor: at as usize, ..s.lists },
            ..s
        },
        Level::Search { .. } => BrowseModel {
            lists: ListsModel { release_cursor: at as usize, ..s.lists },
            ..s
        },
        Level::Add => BrowseModel { add: AddModel { cursor: at as usize, ..s.add }, ..s },
        Level::Downloads => BrowseModel {
            downloads: DownloadsModel { cursor: at as usize, ..s.downloads },
            ..s
        },
        Level::MovieDetail { .. } => s,
    }
}

/// The cursor keys move the focus through the rows of the page: one up or down,
/// a fifth of the height up or down, to the first or the last, never past an
/// end. Nothing else changes.
pub proof fn law_cursor_keys_move_through_the_rows(s: BrowseModel)
    requires
        unobstructed(s),
        !(s.level is MovieDetail),
        row(s) < rows(s) <= usize::MAX,
    ensures
        ({
            let at = row(s);
            let last = rows(s) - 1;
            let jump = if s.status.last_height >= 5 {
                s.status.last_height as int / 5
            } else {
                1
            };
            let down = if at < last {
                at + 1
            } else {
                last
            };
            let up = if at > 0 {
                at - 1
            } else {
                0
            };
            let page_down = if at + jump < last {
                at + jump
            } else {
                last
            };
            let page_up = if at > jump {
                at - jump
            } else {
                0
            };
            &&& press(s, KeyCode::Down) == on_row(s, down)
            &&& press(s, KeyCode::Char('j')) == on_row(s, down)
            &&& press(s, KeyCode::Up) == on_row(s, up)
            &&& press(s, KeyCode::Char('k')) == on_row(s, up)
            &&& press(s, KeyCode::PageDown) == on_row(s, page_down)
            &&& press(s, KeyCode::Char('f')) == on_row(s, page_down)
            &&& press(s, KeyCode::PageUp) == on_row(s, page_up)
            &&& press(s, KeyCode::Char('b')) == on_row(s, page_up)
            &&& press(s, KeyCode::Char('u')) == on_row(s, page_up)
            &&& press(s, KeyCode::Home) == on_row(s, 0)
            &&& press(s, KeyCode::Char('g')) == on_row(s, 0)
            &&& press(s, KeyCode::End) == on_row(s, last)
            &&& press(s, KeyCode::Char('G')) == on_row(s, last)
        }),
{
}

// The filter and the order.

/// Whether a title holds a needle somewhere, once it is in lowercase.
pub open spec fn titled(movie: Movie, needle: Seq<char>) -> bool {
    match movie.title {
        Some(title) => occurs(lowercase(title@), needle),
        None => occurs(lowercase(Seq::<char>::empty()), needle),
    }
}

/// While a filter is on, the list shows exactly the movies with the filter in
/// their titles, whatever the case: each once, in the order of the library. It
/// shows all of them while the filter is off or empty.
pub proof fn law_the_filter_shows_the_matching_movies(s: BrowseModel)
    requires
        s.wf(),
    ensures
        !s.filter.active || s.filter.input.value.len() == 0 ==> s.lists.movies
            == s.lists.all_movies,
        s.filter.active && s.filter.input.value.len() > 0 ==> exists|places: Seq<int>|
            is_selection(
                s.lists.movies,
                s.lists.all_movies,
                lowercase(s.filter.input.value),
                places,
            ),
{
    if s.filter.active && s.filter.input.value.len() > 0 {
        let needle = lowercase(s.filter.input.value);
        lemma_selection(s.lists.all_movies, needle);
    }
}

/// A list shows what lies at the places of another, in order, and those are the
/// places of the movies with the needle in their titles.
pub open spec fn is_selection(
    shown: Seq<Arc<Movie>>,
    all: Seq<Arc<Movie>>,
    needle: Seq<char>,
    places: Seq<int>,
) -> bool {
    &&& places.len() == shown.len()
    &&& forall|k: int|
        0 <= k < places.len() ==> 0 <= #[trigger] places[k] < all.len() && shown[k]
            == all[places[k]] && titled(*all[places[k]], needle)
    &&& forall|j: int, k: int|
        0 <= j < k < places.len() ==> #[trigger] places[j] < #[trigger] places[k]
    &&& forall|i: int|
        0 <= i < all.len() && titled(*#[trigger] all[i], needle) ==> places.contains(i)
}

proof fn lemma_selection(all: Seq<Arc<Movie>>, needle: Seq<char>) -> (places: Seq<int>)
    ensures
        is_selection(matching(all, needle), all, needle, places),
    decreases all.len(),
{
    if all.len() == 0 {
        Seq::empty()
    } else {
        let rest = all.drop_last();
        let before = lemma_selection(rest, needle);
        assert forall|i: int| 0 <= i < rest.len() implies rest[i] == #[trigger] all[i] by {}
        let places = if matching(all, needle).len() > before.len() {
            before.push(all.len() - 1)
        } else {
            before
        };
        let shown = matching(all, needle);
        assert forall|k: int| 0 <= k < places.len() implies 0 <= #[trigger] places[k] < all.len()
            && shown[k] == all[places[k]] && titled(*all[places[k]], needle) by {
            if k < before.len() {
                assert(places[k] == before[k]);
                assert(rest[before[k]] == all[before[k]]);
            }
        }
        assert forall|i: int| 0 <= i < all.len() && titled(
            *#[trigger] all[i],
            needle,
        ) implies places.contains(i) by {
            if i < rest.len() {
                assert(rest[i] == all[i]);
                let k = choose|k: int| 0 <= k < before.len() && before[k] == i;
                assert(places[k] == i);
            } else {
                assert(places[places.len() - 1] == i);
            }
        }
        places
    }
}

/// The filter opens on `/` and takes what is typed character by character;
/// accepting it keeps it, leaving it drops it.
pub proof fn law_the_filter_takes_what_is_typed(s: BrowseModel, c: char)
    requires
        unobstructed(s),
        s.level is MovieList,
        s.wf(),
    ensures
        ({
            let open = press(s, KeyCode::Char('/'));
            let typed = press(open, KeyCode::Char(c));
            let accepted = press(typed, KeyCode::Enter);
            let left = press(typed, KeyCode::Esc);
            &&& open.filter.focused && open.filter.active
            &&& open.filter.input.value == s.filter.input.value
            &&& open.lists == s.lists
            &&& typed.filter.input.value == s.filter.input.value.push(c)
            &&& typed.filter.focused && typed.filter.active
            &&& typed.level == s.level
            &&& typed.lists.all_movies == s.lists.all_movies
            &&& typed.outbox == s.outbox
            &&& accepted.filter.input.value == typed.filter.input.value
            &&& accepted.filter.active && !accepted.filter.focused
            &&& accepted.lists == typed.lists
            &&& !left.filter.active && !left.filter.focused
            &&& left.filter.input.value.len() == 0
            &&& left.lists.movies == s.lists.all_movies
        }),
{
}

/// The sort menu opens on the current sort; choosing another makes it the
/// current one, asks for the list in its order and starts at the top. Choosing
/// the current one, or none, asks for nothing.
pub proof fn law_the_chosen_sort_is_asked_for(s: BrowseModel, choice: usize)
    requires
        unobstructed(s),
        s.level is MovieList,
        s.sort.current < s.sort.count,
        choice < s.sort.count,
        s.wf(),
    ensures
        ({
            let open = press(s, KeyCode::Char('s'));
            let at = BrowseModel {
                popups: PopupsModel {
                    sort_menu: Some(choice),
                    ..open.popups
                },
                ..open
            };
            let t = press(at, KeyCode::Enter);
            &&& open.popups.sort_menu == Some(s.sort.current)
            &&& same_but_popups(open, s)
            &&& press(open, KeyCode::Esc) == s
            &&& t.popups.sort_menu is None
            &&& t.sort.current == choice
            &&& t.sort.count == s.sort.count
            &&& t.lists.movies == s.lists.movies
            &&& choice == s.sort.current ==> t == s
            &&& choice != s.sort.current ==> t.lists.movie_cursor == 0 && t.outbox
                == s.outbox.push(RequestModel::Sort { sort: choice })
            &&& choice + 1 < s.sort.count ==> press(at, KeyCode::Down).popups.sort_menu == Some(
                (choice + 1) as usize,
            )
            &&& choice > 0 ==> press(at, KeyCode::Up).popups.sort_menu == Some(
                (choice - 1) as usize,
            )
        }),
{
}

// Looking up.

/// On the add screen what is typed goes into the search box, and accepting it
/// looks it up; a blank box is not looked up.
pub proof fn law_what_is_typed_is_looked_up(s: BrowseModel, c: char)
    requires
        s.level is Add,
        s.add.search_focused,
        !s.filter.focused,
    ensures
        ({
            let typed = press(s, KeyCode::Char(c));
            &&& typed.add.search.value == s.add.search.value.push(c)
            &&& typed.add.search_focused
            &&& typed.outbox == s.outbox
            &&& typed.add.results == s.add.results
        }),
        ({
            let t = press(s, KeyCode::Enter);
            &&& !t.add.search_focused
            &&& t.add.search.value == s.add.search.value
            &&& t.level == s.level
            &&& blank(s.add.search.value) ==> t.outbox == s.outbox && t.add.results.len() == 0
                && t.add.raw.len() == 0
            &&& !blank(s.add.search.value) ==> t.status.loading && t.outbox == s.outbox.push(
                RequestModel::Lookup {
                    add_lookup_gen: t.gens.add_lookup,
                    term: s.add.search.value,
                },
            )
        }),
        ({
            let t = press(s, KeyCode::Esc);
            &&& !t.add.search_focused
            &&& t.level == s.level
            &&& t.outbox == s.outbox
            &&& t.add.results == s.add.results
        }),
{
}

} // verus!
