//! Where the keys of the Sonarr browse screen lead: from page to page, from
//! row to row, and to what a filter or an order leaves on screen.

use std::sync::Arc;
use vstd::prelude::*;

use crate::app::{KeyCode, KeyEvent};
use crate::apps::downloads::DownloadsModel;
use crate::apps::sonarr::actions::{press, same_but_popups, unobstructed};
use crate::apps::sonarr::browse::Level;
use crate::apps::sonarr::msg::RequestModel;
use crate::apps::sonarr::state::{
    matching, AddModel, BrowseModel, ListsModel, PopupsModel,
};
use crate::sonarr::Series;
use crate::text::{blank, lowercase, occurs};

verus! {

/// Requests with a queue poll behind them, unless one is in flight.
pub open spec fn with_queue_poll(
    outbox: Seq<RequestModel>,
    before: BrowseModel,
    after: BrowseModel,
) -> Seq<RequestModel> {
    if before.status.queue_loading {
        outbox
    } else {
        outbox.push(RequestModel::Queue { queue_gen: after.gens.queue })
    }
}

// Pages.

/// Opening a row opens what is in that row: a series from the list, a season
/// from a series with its own episodes asked for. The queue is refreshed for
/// the markers.
pub proof fn law_the_highlighted_row_is_opened(s: BrowseModel)
    requires
        unobstructed(s),
    ensures
        s.level is SeriesList && s.lists.series_cursor < s.lists.filtered.len()
            && s.lists.filtered[s.lists.series_cursor as int] < s.lists.all_series.len() ==> {
            let t = press(s, KeyCode::Enter);
            &&& t.level == (Level::Show {
                series: s.lists.all_series[s.lists.filtered[s.lists.series_cursor as int] as int],
            })
            &&& t.lists.season_cursor == 0
            &&& t.lists.all_series == s.lists.all_series
            &&& t.lists.series_cursor == s.lists.series_cursor
            &&& t.outbox == with_queue_poll(s.outbox, s, t)
            &&& press(s, KeyCode::Char(' ')) == t
        },
        s.level is Show && s.lists.season_cursor < s.level->Show_series.seasons@.len() ==> {
            let series = s.level->Show_series;
            let season = series.seasons@[s.lists.season_cursor as int];
            let t = press(s, KeyCode::Enter);
            &&& t.level == (Level::Episodes { series, season })
            &&& t.lists.episodes.len() == 0
            &&& t.lists.episode_cursor == 0
            &&& t.lists.season_cursor == s.lists.season_cursor
            &&& t.outbox == with_queue_poll(
                s.outbox.push(
                    RequestModel::Episodes {
                        fetch_gen: t.gens.fetch,
                        series_id: series.id,
                        season_number: season.season_number,
                    },
                ),
                s,
                t,
            )
            &&& press(s, KeyCode::Char(' ')) == t
        },
        s.level is SeriesList && s.lists.series_cursor >= s.lists.filtered.len() ==> press(
            s,
            KeyCode::Enter,
        ) == s,
{
}

/// `i` opens the page of the highlighted episode, and closes it again.
pub proof fn law_the_highlighted_episode_is_shown(s: BrowseModel)
    requires
        unobstructed(s),
        s.level is Episodes,
        s.lists.episode_cursor < s.lists.episodes.len(),
    ensures
        ({
            let (series, season) = (s.level->Episodes_series, s.level->Episodes_season);
            let episode = s.lists.episodes[s.lists.episode_cursor as int];
            let t = press(s, KeyCode::Char('i'));
            &&& t.level == (Level::EpisodeDetail { series, season, episode })
            &&& t.status.info_scroll == 0
            &&& t.lists == s.lists
            &&& t.outbox == s.outbox
            &&& press(t, KeyCode::Down).status.info_scroll == 1
            &&& press(press(t, KeyCode::Down), KeyCode::Up).status.info_scroll == 0
            &&& press(t, KeyCode::Char('i')).level == s.level
            &&& press(t, KeyCode::Char('i')).lists == s.lists
            &&& press(t, KeyCode::Esc).level == s.level
        }),
{
}

/// Going back leads from the releases and from an episode's page to its season,
/// from a season to its series, and from every other page to the list, with the
/// list and its cursor as they were. It asks the server for nothing.
pub proof fn law_going_back_leads_up(s: BrowseModel, back: KeyCode)
    requires
        unobstructed(s),
        back == KeyCode::Esc || back == KeyCode::Backspace,
    ensures
        ({
            let t = press(s, back);
            &&& t.outbox == s.outbox
            &&& t.lists.all_series == s.lists.all_series
            &&& t.lists.queue == s.lists.queue
            &&& t.monitors == s.monitors
            &&& t.add.pending_edit is None
            &&& match s.level {
                Level::Search { series, season, .. } => {
                    &&& t.level == (Level::Episodes { series, season })
                    &&& t.lists.releases.len() == 0
                    &&& t.lists.history.len() == 0
                    &&& t.lists.episodes == s.lists.episodes
                    &&& t.lists.episode_cursor == s.lists.episode_cursor
                },
                Level::EpisodeDetail { series, season, .. } => {
                    &&& t.level == (Level::Episodes { series, season })
                    &&& t.lists == s.lists
                },
                Level::Episodes { series, .. } => {
                    &&& t.level == (Level::Show { series })
                    &&& t.lists == s.lists
                },
                Level::Show { .. } => {
                    &&& t.level is SeriesList
                    &&& t.lists == s.lists
                },
                Level::Downloads => {
                    &&& t.level is SeriesList
                    &&& t.lists == s.lists
                    &&& t.downloads.cursor == 0
                    &&& t.downloads.marks == Set::<i64>::empty()
                },
                Level::Add => {
                    &&& t.level is SeriesList
                    &&& t.lists == s.lists
                    &&& t.add.results.len() == 0
                    &&& t.add.raw.len() == 0
                    &&& t.add.search.value.len() == 0
                    &&& !t.add.submitting
                },
                Level::SeriesList => t.level is SeriesList && (!s.filter.active ==> t.lists
                    == s.lists),
            }
        }),
{
}

/// From the list, `d` opens the downloads with nothing marked and refreshes the
/// queue; `a` opens the add screen with an empty search box in focus, and asks
/// for the folders and profiles exactly where some are missing.
pub proof fn law_pages_open_from_the_list(s: BrowseModel)
    requires
        unobstructed(s),
        s.level is SeriesList,
    ensures
        ({
            let t = press(s, KeyCode::Char('d'));
            &&& t.level is Downloads
            &&& t.downloads.cursor == 0
            &&& t.downloads.marks == Set::<i64>::empty()
            &&& t.lists == s.lists
            &&& t.outbox == with_queue_poll(s.outbox, s, t)
        }),
        ({
            let t = press(s, KeyCode::Char('a'));
            &&& t.level is Add
            &&& t.add.search_focused
            &&& t.add.search.focused
            &&& t.add.search.value.len() == 0
            &&& t.add.results.len() == 0
            &&& t.add.raw.len() == 0
            &&& t.add.cursor == 0
            &&& t.lists == s.lists
            &&& t.outbox == if s.add.root_folders.len() > 0 && s.add.quality_profiles.len() > 0 {
                s.outbox
            } else {
                s.outbox.push(RequestModel::AddOptions { prereq_gen: t.gens.add_prereq })
            }
        }),
{
}

/// Refreshing asks for what the page shows: the series, the episodes of the
/// season, the releases and the history of the episode that is searched for,
/// the queue, or what was looked up.
pub proof fn law_refreshing_asks_for_what_is_shown(s: BrowseModel)
    requires
        unobstructed(s),
    ensures
        ({
            let t = press(s, KeyCode::Char('r'));
            let f = t.gens.fetch;
            &&& t.level == s.level
            &&& t.lists.all_series == s.lists.all_series
            &&& t.lists.episodes == s.lists.episodes
            &&& t.lists.queue == s.lists.queue
            &&& match s.level {
                Level::SeriesList => t.outbox == s.outbox.push(
                    RequestModel::Series { fetch_gen: f },
                ),
                Level::Show { .. } => t.outbox == with_queue_poll(
                    s.outbox.push(RequestModel::Series { fetch_gen: f }),
                    s,
                    t,
                ),
                Level::Episodes { series, season } | Level::EpisodeDetail { series, season, .. } =>
                    t.outbox == with_queue_poll(
                    s.outbox.push(
                        RequestModel::Episodes {
                            fetch_gen: f,
                            series_id: series.id,
                            season_number: season.season_number,
                        },
                    ),
                    s,
                    t,
                ),
                Level::Search { episode, .. } => t.outbox == s.outbox.push(
                    RequestModel::Releases { fetch_gen: f, episode_id: episode.id },
                ).push(RequestModel::History { fetch_gen: f, episode_id: episode.id }),
                Level::Downloads => t.outbox == with_queue_poll(s.outbox, s, t),
                Level::Add => t.outbox == if blank(s.add.search.value) {
                    s.outbox.push(RequestModel::AddOptions { prereq_gen: t.gens.add_prereq })
                } else {
                    s.outbox.push(RequestModel::AddOptions { prereq_gen: t.gens.add_prereq }).push(
                        RequestModel::Lookup {
                            add_lookup_gen: t.gens.add_lookup,
                            term: s.add.search.value,
                        },
                    )
                },
            }
        }),
{
}

/// The reasons for which the highlighted release was rejected open on `x`,
/// where there are some, and are left without a trace.
pub proof fn law_rejections_are_those_of_the_highlighted_release(s: BrowseModel)
    requires
        unobstructed(s),
        s.level is Search,
    ensures
        ({
            let t = press(s, KeyCode::Char('x'));
            let some = s.lists.release_cursor < s.lists.releases.len()
                && s.lists.releases[s.lists.release_cursor as int].rejections@.len() > 0;
            &&& t.popups.rejections == if some {
                Some(0usize)
            } else {
                None
            }
            &&& same_but_popups(t, s)
            &&& some ==> same_but_popups(press(t, KeyCode::Esc), s) && press(
                t,
                KeyCode::Esc,
            ).popups.rejections is None
        }),
{
}

/// Help is shown and hidden by the same key, and `q` changes nothing but asks
/// to quit.
pub proof fn law_help_and_quitting(s: BrowseModel, key: KeyEvent)
    requires
        unobstructed(s),
        key.code == KeyCode::Char('q'),
        !key.is_modified_char(),
    ensures
        press(s, KeyCode::Char('?')).status.show_full_help == !s.status.show_full_help,
        press(press(s, KeyCode::Char('?')), KeyCode::Char('?')) == s,
        press(s, KeyCode::Char('?')).outbox == s.outbox,
        s.quits(key),
        s.after_key(key) == s,
{
}

// Rows.

/// The row in focus on a page with rows.
pub open spec fn row(s: BrowseModel) -> int {
    match s.level {
        Level::SeriesList => s.lists.series_cursor as int,
        Level::Show { .. } => s.lists.season_cursor as int,
        Level::Episodes { .. } => s.lists.episode_cursor as int,
        Level::Search { .. } => s.lists.release_cursor as int,
        Level::Add => s.add.cursor as int,
        Level::Downloads => s.downloads.cursor as int,
        Level::EpisodeDetail { .. } => 0,
    }
}

/// How many rows a page has.
pub open spec fn rows(s: BrowseModel) -> int {
    match s.level {
        Level::SeriesList => s.lists.filtered.len() as int,
        Level::Show { series } => series.seasons@.len() as int,
        Level::Episodes { .. } => s.lists.episodes.len() as int,
        Level::Search { .. } => s.lists.releases.len() as int,
        Level::Add => s.add.results.len() as int,
        Level::Downloads => s.lists.queue.len() as int,
        Level::EpisodeDetail { .. } => 0,
    }
}

/// The page with another row in focus and nothing else changed.
pub open spec fn on_row(s: BrowseModel, at: int) -> BrowseModel {
    match s.level {
        Level::SeriesList => BrowseModel {
            lists: ListsModel { series_cursor: at as usize, ..s.lists },
            ..s
        },
        Level::Show { .. } => BrowseModel {
            lists: ListsModel { season_cursor: at as usize, ..s.lists },
            ..s
        },
        Level::Episodes { .. } => BrowseModel {
            lists: ListsModel { episode_cursor: at as usize, ..s.lists },
            ..s
        },
        Level::Search { .. } => BrowseModel {
            lists: ListsModel { release_cursor: at as usize, ..s.lists },
            ..s
        },
        Level::Add => BrowseModel { add: AddModel { cursor: at as usize, ..s.add }, ..s },
        Level::Downloads => BrowseModel {
            downloads: DownloadsModel { cursor: at as usize, ..s.downloads },
            ..s
        },
        Level::EpisodeDetail { .. } => s,
    }
}

/// The cursor keys move the focus through the rows of the page: one up or down,
/// a fifth of the height up or down, to the first or the last, never past an
/// end. Nothing else changes.
pub proof fn law_cursor_keys_move_through_the_rows(s: BrowseModel)
    requires
        unobstructed(s),
        !(s.level is EpisodeDetail),
        row(s) < rows(s) <= usize::MAX,
    ensures
        ({
            let at = row(s);
            let last = rows(s) - 1;
            let jump = if s.status.last_height >= 5 {
                s.status.last_height as int / 5
            } else {
                1
            };
            let down = if at < last {
                at + 1
            } else {
                last
            };
            let up = if at > 0 {
                at - 1
            } else {
                0
            };
            let page_down = if at + jump < last {
                at + jump
            } else {
                last
            };
            let page_up = if at > jump {
                at - jump
            } else {
                0
            };
            &&& press(s, KeyCode::Down) == on_row(s, down)
            &&& press(s, KeyCode::Up) == on_row(s, up)
            &&& press(s, KeyCode::PageDown) == on_row(s, page_down)
            &&& press(s, KeyCode::Right) == on_row(s, page_down)
            &&& press(s, KeyCode::PageUp) == on_row(s, page_up)
            &&& press(s, KeyCode::Left) == on_row(s, page_up)
            &&& press(s, KeyCode::Home) == on_row(s, 0)
            &&& press(s, KeyCode::Char('g')) == on_row(s, 0)
            &&& press(s, KeyCode::End) == on_row(s, last)
            &&& press(s, KeyCode::Char('G')) == on_row(s, last)
        }),
{
}

// The filter and the order.

/// Whether a title holds a needle somewhere, once it is in lowercase.
pub open spec fn titled(series: Series, needle: Seq<char>) -> bool {
    match series.title {
        Some(title) => occurs(lowercase(title@), needle),
        None => occurs(lowercase(Seq::<char>::empty()), needle),
    }
}

/// Rows that stand for the series with the needle in their titles: each once,
/// in the order of the library.
pub open spec fn is_selection(rows: Seq<usize>, all: Seq<Arc<Series>>, needle: Seq<char>) -> bool {
    &&& forall|k: int|
        0 <= k < rows.len() ==> (#[trigger] rows[k]) < all.len() && titled(
            *all[rows[k] as int],
            needle,
        )
    &&& forall|j: int, k: int| 0 <= j < k < rows.len() ==> #[trigger] rows[j] < #[trigger] rows[k]
    &&& forall|i: int|
        0 <= i < all.len() && titled(*#[trigger] all[i], needle) ==> rows.contains(i as usize)
}

/// While a filter is on, the list shows exactly the series with the filter in
/// their titles, whatever the case: each once, in the order of the library. It
/// shows all of them while the filter is off or empty.
pub proof fn law_the_filter_shows_the_matching_series(s: BrowseModel)
    requires
        s.wf(),
    ensures
        !s.filter.active || s.filter.input.value.len() == 0 ==> s.lists.filtered.len()
            == s.lists.all_series.len() && forall|i: int|
            0 <= i < s.lists.all_series.len() ==> #[trigger] s.lists.filtered[i] == i,
        s.filter.active && s.filter.input.value.len() > 0 ==> is_selection(
            s.lists.filtered,
            s.lists.all_series,
            lowercase(s.filter.input.value),
        ),
{
    if s.filter.active && s.filter.input.value.len() > 0 {
        lemma_selection(s.lists.all_series, lowercase(s.filter.input.value));
    }
}

proof fn lemma_selection(all: Seq<Arc<Series>>, needle: Seq<char>)
    requires
        all.len() <= usize::MAX,
    ensures
        is_selection(matching(all, needle), all, needle),
    decreases all.len(),
{
    if all.len() > 0 {
        let rest = all.drop_last();
        lemma_selection(rest, needle);
        let (before, after) = (matching(rest, needle), matching(all, needle));
        assert forall|i: int| 0 <= i < rest.len() implies rest[i] == #[trigger] all[i] by {}
        assert forall|k: int| 0 <= k < after.len() implies (#[trigger] after[k]) < all.len()
            && titled(*all[after[k] as int], needle) by {
            if k < before.len() {
                assert(after[k] == before[k]);
                assert(rest[before[k] as int] == all[before[k] as int]);
            }
        }
        assert forall|i: int| 0 <= i < all.len() && titled(
            *#[trigger] all[i],
            needle,
        ) implies after.contains(i as usize) by {
            if i < rest.len() {
                assert(rest[i] == all[i]);
                let k = choose|k: int| 0 <= k < before.len() && before[k] == i as usize;
                assert(after[k] == i as usize);
            } else {
                assert(after[after.len() - 1] == i as usize);
            }
        }
    }
}

/// The filter opens on `/` and takes what is typed character by character;
/// accepting it keeps it, leaving it drops it.
pub proof fn law_the_filter_takes_what_is_typed(s: BrowseModel, c: char)
    requires
        unobstructed(s),
        s.level is SeriesList,
        s.wf(),
    ensures
        ({
            let open = press(s, KeyCode::Char('/'));
            let typed = press(open, KeyCode::Char(c));
            let accepted = press(typed, KeyCode::Enter);
            let left = press(typed, KeyCode::Esc);
            &&& open.filter.focused && open.filter.active
            &&& open.filter.input.value == s.filter.input.value
            &&& open.lists == s.lists
            &&& typed.filter.input.value == s.filter.input.value.push(c)
            &&& typed.filter.focused && typed.filter.active
            &&& typed.level == s.level
            &&& typed.lists.all_series == s.lists.all_series
            &&& typed.outbox == s.outbox
            &&& accepted.filter.input.value == typed.filter.input.value
            &&& accepted.filter.active && !accepted.filter.focused
            &&& accepted.lists == typed.lists
            &&& !left.filter.active && !left.filter.focused
            &&& left.filter.input.value.len() == 0
            &&& left.lists.filtered.len() == s.lists.all_series.len()
        }),
{
}

/// The sort menu opens on the current sort; choosing another makes it the
/// current one, asks for the list in its order and starts at the top. Choosing
/// the current one, or none, asks for nothing.
pub proof fn law_the_chosen_sort_is_asked_for(s: BrowseModel, choice: usize)
    requires
        unobstructed(s),
        s.level is SeriesList,
        s.sort.current < s.sort.count,
        choice < s.sort.count,
        s.wf(),
    ensures
        ({
            let open = press(s, KeyCode::Char('v'));
            let at = BrowseModel {
                popups: PopupsModel { sort_menu: Some(choice), ..open.popups },
                ..open
            };
            let t = press(at, KeyCode::Enter);
            &&& open.popups.sort_menu == Some(s.sort.current)
            &&& same_but_popups(open, s)
            &&& press(open, KeyCode::Esc) == s
            &&& t.popups.sort_menu is None
            &&& t.sort.current == choice
            &&& t.sort.count == s.sort.count
            &&& t.lists.filtered == s.lists.filtered
            &&& choice == s.sort.current ==> t == s
            &&& choice != s.sort.current ==> t.lists.series_cursor == 0 && t.outbox
                == s.outbox.push(RequestModel::Sort { sort: choice })
            &&& choice + 1 < s.sort.count ==> press(at, KeyCode::Down).popups.sort_menu == Some(
                (choice + 1) as usize,
            )
            &&& choice > 0 ==> press(at, KeyCode::Up).popups.sort_menu == Some(
                (choice - 1) as usize,
            )
        }),
{
}

// Looking up.

/// On the add screen what is typed goes into the search box, and accepting it
/// looks it up; a blank box is not looked up.
pub proof fn law_what_is_typed_is_looked_up(s: BrowseModel, c: char)
    requires
        s.level is Add,
        s.add.search_focused,
        !s.filter.focused,
    ensures
        ({
            let typed = press(s, KeyCode::Char(c));
            &&& typed.add.search.value == s.add.search.value.push(c)
            &&& typed.add.search_focused
            &&& typed.outbox == s.outbox
            &&& typed.add.results == s.add.results
        }),
        ({
            let t = press(s, KeyCode::Enter);
            &&& !t.add.search_focused
            &&& t.add.search.value == s.add.search.value
            &&& t.level == s.level
            &&& blank(s.add.search.value) ==> t.outbox == s.outbox && t.add.results.len() == 0
                && t.add.raw.len() == 0
            &&& !blank(s.add.search.value) ==> t.status.loading && t.outbox == s.outbox.push(
                RequestModel::Lookup {
                    add_lookup_gen: t.gens.add_lookup,
                    term: s.add.search.value,
                },
            )
        }),
        ({
            let t = press(s, KeyCode::Esc);
            &&& !t.add.search_focused
            &&& t.level == s.level
            &&& t.outbox == s.outbox
            &&& t.add.results == s.add.results
        }),
{
}

} // verus!
