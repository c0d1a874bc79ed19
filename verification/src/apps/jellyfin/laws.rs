//! What holds of the Jellyfin browse screen as a whole.

use std::sync::Arc;
use vstd::prelude::*;

use crate::app::{KeyCode, KeyEvent};
use crate::apps::jellyfin::browse::{BrowseAction, Popups, SeriesView, FILTER_LOAD_MAX_RETRIES};
use crate::apps::jellyfin::library::{
    episodes_in, is_playable, LibraryKind, LibraryLevel, Sort, Tab, PAGE_SIZE,
};
use crate::apps::jellyfin::msg::RequestModel;
use crate::apps::jellyfin::state::{
    claimed, item_matches, matching, of_season, retry_delay, BrowseModel, InputsModel, ListsModel,
};
use crate::jellyfin::{Error, ItemKind, MediaItem};
use crate::ui::list::{law_cursor_stays_in_the_list, Step};

verus! {

/// A list or a page under another generation than the awaited one changes
/// nothing, whatever the answer says. Neither does a toggle that succeeded
/// under another.
pub proof fn law_stale_answers_change_nothing(
    s: BrowseModel,
    gen: u64,
    items: Result<Seq<Arc<MediaItem>>, Error>,
    start_index: usize,
    limit: usize,
    page: Result<(Seq<Arc<MediaItem>>, i32), Error>,
)
    requires
        gen != s.gens.fetch,
    ensures
        s.after_items(gen, items) == s,
        s.after_page(gen, start_index, limit, page) == s,
        s.after_toggle(gen, Ok(())) == s,
{
}

/// A toggle that failed is shown however far the user has moved on, and the
/// error outlives the refetch.
pub proof fn law_failed_toggles_are_shown(s: BrowseModel, gen: u64, err: Error)
    requires
        !(err is Unauthorized),
    ensures
        s.after_toggle(gen, Err(err)).status.error == Some(err.text()),
{
}

/// An error that playback left outlives the refetch after it.
pub proof fn law_playback_errors_survive(s: BrowseModel)
    ensures
        s.after_playback().status.error == s.status.error,
{
}

/// Each fetch goes out under a generation that none before it had, until the
/// counter starts over.
pub proof fn law_generations_are_fresh(
    s: BrowseModel,
    start_index: usize,
    limit: usize,
    delay_ms: u64,
)
    requires
        s.gens_in_order(),
        s.gens.counter < u64::MAX,
    ensures
        s.fetch().gens_in_order() && s.gens.counter < s.fetch().gens.fetch,
        ({
            let t = s.fetch_page(start_index, limit, delay_ms);
            t.gens_in_order() && s.gens.counter < t.gens.fetch
        }),
{
}

/// A character held with ctrl or alt is no shortcut: it changes nothing unless
/// a field has the focus.
pub proof fn law_modified_characters_change_nothing(s: BrowseModel, key: KeyEvent)
    requires
        key.is_modified_char(),
        !s.inputs.search_focused,
        !s.inputs.filter_focused,
    ensures
        s.after_key(key) == s,
        s.key_action(key) is None,
{
}

/// Only things that are played are ever handed over to be played: no series,
/// no library and no collection.
pub proof fn law_containers_never_play(s: BrowseModel, key: KeyEvent)
    requires
        s.place.series is None,
    ensures
        s.key_action(key) matches Some(BrowseAction::Play(item)) ==> item.kind != ItemKind::Series
            && item.kind != ItemKind::BoxSet && item.kind != ItemKind::CollectionFolder
            && s.current_item() == Some(item),
{
}

/// Only things that are played can be marked as watched, and marking changes
/// nothing on screen before the server has answered.
pub proof fn law_only_playable_items_are_marked(s: BrowseModel)
    ensures
        s.toggle_watched() != s ==> s.current_item() is Some && is_playable(*s.current_item()->0),
        s.toggle_watched().lists == s.lists,
        s.toggle_watched().place == s.place,
{
}

/// Tabs are not switched from inside a series or a library.
pub proof fn law_drilling_in_blocks_the_tabs(s: BrowseModel, code: KeyCode)
    requires
        s.drilled_in(),
        code == KeyCode::Tab || code == KeyCode::BackTab || code == KeyCode::Char('h') || code
            == KeyCode::Char('l') || code == KeyCode::Left || code == KeyCode::Right,
    ensures
        s.list_key(code).place == s.place,
        s.series_key(code).place == s.place,
        code != KeyCode::Left && code != KeyCode::Right ==> s.list_key(code) == s,
        code != KeyCode::Left && code != KeyCode::Right && s.place.series is Some
            ==> s.series_key(code) == s,
{
}

/// On a tab's own list, right, `l` and tab go to the next tab, and left, `h`
/// and shift+tab to the one before.
pub proof fn law_arrows_switch_tabs(s: BrowseModel, code: KeyCode)
    requires
        !s.drilled_in(),
    ensures
        code == KeyCode::Right || code == KeyCode::Char('l') || code == KeyCode::Tab ==> s.list_key(
            code,
        ) == s.on_tab(Tab::at(s.place.tab.place() + 1)),
        code == KeyCode::Left || code == KeyCode::Char('h') || code == KeyCode::BackTab
            ==> s.list_key(code) == s.on_tab(Tab::at(s.place.tab.place() + 4)),
{
}

/// Opening a library and going back ends at the root, and a collection at its
/// library.
pub proof fn law_levels_undo_each_other(s: BrowseModel, item: Arc<MediaItem>, level: LibraryLevel)
    requires
        s.level_below(item) == Some(level),
        s.place.level is Library ==> s.place.level->kind == LibraryKind::Other,
    ensures
        s.at(level).pop_level().place.level == s.place.level,
{
}

/// Leaving a series drops its episodes: nothing of it can be played before the
/// tab's list has arrived.
pub proof fn law_left_series_are_not_playable(s: BrowseModel)
    ensures
        s.leave_series().current_item() is None,
        s.leave_series().plays() is None,
{
}

/// A refresh in place asks for every page that was scrolled through, in one
/// request from the start.
pub proof fn law_refreshes_keep_the_position(s: BrowseModel)
    requires
        s.in_library(),
        s.lists.all_items.len() <= usize::MAX,
    ensures
        s.refetch_in_place().lists == s.lists,
        s.refetch_in_place().outbox.last() matches RequestModel::LibraryPage {
            start_index,
            limit,
            ..
        } && start_index == 0 && limit >= s.lists.all_items.len() && limit >= PAGE_SIZE,
{
}

/// A page that is not the first continues the list: what was there stays, in
/// its order.
pub proof fn law_pages_continue_the_list(
    s: BrowseModel,
    start_index: usize,
    limit: usize,
    list: Seq<Arc<MediaItem>>,
    total: i32,
)
    requires
        start_index > 0,
    ensures
        s.after_page(s.gens.fetch, start_index, limit, Ok((list, total))).lists.all_items
            == s.lists.all_items + list,
{
}

/// A page that fails while a filter loads the list is asked for again, the same
/// page after a longer wait, but no more than a few times; then the error is
/// shown.
pub proof fn law_retries_are_bounded(
    s: BrowseModel,
    start_index: usize,
    limit: usize,
    err: Error,
)
    requires
        !(err is Unauthorized),
        s.in_filter_chain(),
        s.in_library(),
    ensures
        ({
            let t = s.after_page(s.gens.fetch, start_index, limit, Err(err));
            if s.status.filter_load_attempts < FILTER_LOAD_MAX_RETRIES {
                &&& t.status.filter_load_attempts == s.status.filter_load_attempts + 1
                &&& t.status.error is None
                &&& t.outbox.last() matches RequestModel::LibraryPage {
                    start_index: again,
                    limit: same,
                    delay_ms,
                    ..
                } && again == start_index && same == limit && delay_ms == retry_delay(
                    s.status.filter_load_attempts,
                )
            } else {
                &&& t.status.error == Some(err.text())
                &&& t.status.filter_load_attempts == 0
                &&& t.outbox == s.outbox
            }
        }),
{
}

/// A filter that runs here is never sent to the server, which would ignore it,
/// and one that runs there always is.
pub proof fn law_filters_run_in_one_place(s: BrowseModel)
    requires
        s.inputs.filter_active,
    ensures
        s.page_filter() is Some == s.uses_server_filter(),
        s.uses_server_filter() ==> s.visible() == s.lists.all_items,
{
}

/// What the filter leaves visible is part of the list and holds exactly the
/// items that match.
pub proof fn law_filter_keeps_matches(all: Seq<Arc<MediaItem>>, needle: Seq<char>)
    ensures
        matching(all, needle).len() <= all.len(),
        forall|i: int|
            0 <= i < all.len() && item_matches(*#[trigger] all[i], needle) ==> matching(
                all,
                needle,
            ).contains(all[i]),
        forall|k: int|
            0 <= k < matching(all, needle).len() ==> item_matches(
                *#[trigger] matching(all, needle)[k],
                needle,
            ) && all.contains(matching(all, needle)[k]),
    decreases all.len(),
{
    if all.len() > 0 {
        let rest = all.drop_last();
        law_filter_keeps_matches(rest, needle);
        let before = matching(rest, needle);
        let now = matching(all, needle);
        assert forall|i: int|
            0 <= i < all.len() && item_matches(*#[trigger] all[i], needle) implies now.contains(
            all[i],
        ) by {
            if i < rest.len() {
                assert(rest[i] == all[i]);
                let k = choose|k: int| 0 <= k < before.len() && before[k] == all[i];
                assert(now[k] == all[i]);
            } else {
                assert(now[now.len() - 1] == all[i]);
            }
        }
        assert forall|k: int| 0 <= k < now.len() implies item_matches(
            *#[trigger] now[k],
            needle,
        ) && all.contains(now[k]) by {
            if k < before.len() {
                assert(now[k] == before[k]);
                let i = choose|i: int| 0 <= i < rest.len() && rest[i] == before[k];
                assert(all[i] == now[k]);
            } else {
                assert(all[all.len() - 1] == now[k]);
            }
        }
    }
}

/// A season shows exactly its own episodes.
pub proof fn law_seasons_show_their_episodes(all: Seq<Arc<MediaItem>>, number: Option<i32>)
    ensures
        of_season(all, number).len() == episodes_in(all, number),
        forall|k: int|
            0 <= k < of_season(all, number).len() ==> (
            #[trigger] of_season(all, number)[k]).parent_index_number == number,
    decreases all.len(),
{
    if all.len() > 0 {
        law_seasons_show_their_episodes(all.drop_last(), number);
    }
}

// Well-formedness.

/// The screen opens well-formed.
pub proof fn law_screen_opens_well_formed(gen_counter: u64)
    ensures
        BrowseModel::initial(gen_counter).fetch().wf(),
        BrowseModel::initial(gen_counter).gens_in_order(),
{
}

proof fn lemma_fetches(s: BrowseModel, start_index: usize, limit: usize, delay_ms: u64)
    requires
        s.wf(),
    ensures
        s.fetch_page(start_index, limit, delay_ms).wf(),
        s.fetch().wf(),
        s.refetch_in_place().wf(),
        s.next_page().wf(),
        s.maybe_fetch_next_page().wf(),
        s.maybe_start_filter_load().wf(),
{
}

proof fn lemma_next_page(s: BrowseModel)
    requires
        s.wf(),
    ensures
        s.maybe_fetch_next_page().wf(),
{
    lemma_fetches(s, 0, 0, 0);
}

proof fn lemma_lists(s: BrowseModel)
    requires
        s.wf(),
    ensures
        s.filter_cleared().apply_filter().wf(),
        s.restart_list().wf(),
        s.filter_cleared().restart_list().wf(),
        !s.inputs.filter_focused ==> s.filter_dropped().wf(),
{
}

proof fn lemma_levels(s: BrowseModel, level: LibraryLevel)
    requires
        s.wf(),
        s.place.tab == Tab::Libraries || level is Root,
    ensures
        s.at(level).enter_new_level().wf(),
{
}

proof fn lemma_moves(s: BrowseModel, step: Step)
    requires
        s.wf(),
        s.lists.items.len() <= usize::MAX,
        s.lists.seasons.len() <= usize::MAX,
    ensures
        s.move_cursor(step).wf(),
        s.place.series is Some ==> s.move_season(step).wf(),
{
    if s.lists.cursor < s.lists.items.len() {
        law_cursor_stays_in_the_list(
            step,
            s.lists.cursor,
            s.lists.items.len() as usize,
            s.page_jump(),
        );
    }
    if s.lists.season_cursor < s.lists.seasons.len() {
        law_cursor_stays_in_the_list(
            step,
            s.lists.season_cursor,
            s.lists.seasons.len() as usize,
            s.page_jump(),
        );
    }
}

proof fn lemma_search_key(s: BrowseModel, key: KeyEvent)
    requires
        s.wf(),
        s.inputs.search_focused,
    ensures
        s.search_key(key).wf(),
{
    let unfocused = BrowseModel {
        inputs: InputsModel { search_focused: false, ..s.inputs },
        ..s
    };
    lemma_fetches(unfocused.clear_list().with_cursor(0), 0, 0, 0);
    lemma_fetches(unfocused.with_cursor(0), 0, 0, 0);
}

proof fn lemma_filter_key(s: BrowseModel, key: KeyEvent)
    requires
        s.wf(),
        s.inputs.filter_focused,
    ensures
        s.filter_key(key).wf(),
{
    lemma_lists(s);
}

proof fn lemma_sort_menu_key(s: BrowseModel, code: KeyCode)
    requires
        s.wf(),
        s.popups.sort_menu is Some,
    ensures
        s.sort_menu_key(code).wf(),
{
}

proof fn lemma_leave_series(s: BrowseModel)
    requires
        s.wf(),
        s.place.series is Some,
    ensures
        s.leave_series().wf(),
{
}

proof fn lemma_enter_season(s: BrowseModel)
    requires
        s.wf(),
        s.place.series is Some,
    ensures
        s.enter_season().wf(),
{
}

proof fn lemma_seasons_key(s: BrowseModel, code: KeyCode)
    requires
        s.wf(),
        s.place.series is Some,
        s.lists.items.len() <= usize::MAX,
        s.lists.seasons.len() <= usize::MAX,
    ensures
        s.seasons_key(code).wf(),
{
    match code {
        KeyCode::Up | KeyCode::Char('k') => {
            lemma_moves(s, Step::Up);
        },
        KeyCode::Down | KeyCode::Char('j') => {
            lemma_moves(s, Step::Down);
        },
        KeyCode::PageUp | KeyCode::Left | KeyCode::Char('b') | KeyCode::Char('u') => {
            lemma_moves(s, Step::PageUp);
        },
        KeyCode::PageDown | KeyCode::Right | KeyCode::Char('f') | KeyCode::Char('d') => {
            lemma_moves(s, Step::PageDown);
        },
        KeyCode::Home | KeyCode::Char('g') => {
            lemma_moves(s, Step::Home);
        },
        KeyCode::End | KeyCode::Char('G') => {
            lemma_moves(s, Step::End);
        },
        KeyCode::Enter | KeyCode::Char(' ') => {
            lemma_enter_season(s);
        },
        KeyCode::Esc | KeyCode::Backspace => {
            lemma_leave_series(s);
        },
        KeyCode::Char('r') => {
            lemma_fetches(s, 0, 0, 0);
        },
        _ => {},
    }
}

proof fn lemma_episodes_key(s: BrowseModel, code: KeyCode)
    requires
        s.wf(),
        s.place.series is Some,
        s.lists.items.len() <= usize::MAX,
        s.lists.seasons.len() <= usize::MAX,
    ensures
        s.episodes_key(code).wf(),
{
    match code {
        KeyCode::Up | KeyCode::Char('k') => {
            lemma_moves(s, Step::Up);
        },
        KeyCode::Down | KeyCode::Char('j') => {
            lemma_moves(s, Step::Down);
        },
        KeyCode::PageUp | KeyCode::Left | KeyCode::Char('b') | KeyCode::Char('u') => {
            lemma_moves(s, Step::PageUp);
        },
        KeyCode::PageDown | KeyCode::Right | KeyCode::Char('f') | KeyCode::Char('d') => {
            lemma_moves(s, Step::PageDown);
        },
        KeyCode::Home | KeyCode::Char('g') => {
            lemma_moves(s, Step::Home);
        },
        KeyCode::End | KeyCode::Char('G') => {
            lemma_moves(s, Step::End);
        },
        KeyCode::Char('r') => {
            lemma_fetches(s, 0, 0, 0);
        },
        _ => {},
    }
}

proof fn lemma_series_key(s: BrowseModel, code: KeyCode)
    requires
        s.wf(),
        s.place.series is Some,
        s.lists.items.len() <= usize::MAX,
        s.lists.seasons.len() <= usize::MAX,
    ensures
        s.series_key(code).wf(),
{
    match s.place.view {
        SeriesView::Seasons => {
            lemma_seasons_key(s, code);
        },
        SeriesView::Episodes => {
            lemma_episodes_key(s, code);
        },
        SeriesView::EpisodeInfo => {},
    }
}

proof fn lemma_open_key(s: BrowseModel)
    requires
        s.wf(),
        s.place.series is None,
        !s.inputs.search_focused,
    ensures
        s.open_key().wf(),
{
    match s.current_item() {
        None => {},
        Some(item) => match s.level_below(item) {
            Some(level) => {
                lemma_levels(s, level);
                lemma_levels(
                    BrowseModel {
                        popups: Popups { collection_sort: Sort::newest(), ..s.popups },
                        ..s
                    },
                    level,
                );
            },
            None => {
                assert(s.open_series(item).wf());
            },
        },
    }
}

proof fn lemma_back_key(s: BrowseModel, code: KeyCode)
    requires
        s.wf(),
        !s.inputs.search_focused,
        !s.inputs.filter_focused,
    ensures
        s.back_key(code).wf(),
{
    lemma_lists(s);
    match s.place.level {
        LibraryLevel::Collection { library, .. } => {
            lemma_levels(s, LibraryLevel::Library { library, kind: LibraryKind::Other });
        },
        _ => {
            lemma_levels(s, LibraryLevel::Root);
        },
    }
    lemma_fetches(
        BrowseModel {
            inputs: InputsModel { search: s.inputs.search.cleared(), ..s.inputs },
            ..s
        }.with_cursor(0),
        0,
        0,
        0,
    );
}

proof fn lemma_slash_key(s: BrowseModel)
    requires
        s.wf(),
    ensures
        s.slash_key().wf(),
{
    lemma_fetches(
        BrowseModel {
            inputs: InputsModel {
                filter_active: true,
                filter_focused: true,
                filter: s.inputs.filter.with_focus(true),
                ..s.inputs
            },
            ..s
        },
        0,
        0,
        0,
    );
}

proof fn lemma_tab_keys(s: BrowseModel, tab: Tab)
    requires
        s.wf(),
        !s.inputs.search_focused,
    ensures
        s.on_tab(tab).wf(),
{
}

#[verifier::spinoff_prover]
proof fn lemma_list_key(s: BrowseModel, code: KeyCode)
    requires
        s.wf(),
        s.place.series is None,
        !s.inputs.search_focused,
        !s.inputs.filter_focused,
        s.lists.items.len() <= usize::MAX,
        s.lists.seasons.len() <= usize::MAX,
    ensures
        s.list_key(code).wf(),
{
    match code {
        KeyCode::Up | KeyCode::Char('k') => {
            lemma_moves(s, Step::Up);
        },
        KeyCode::Down | KeyCode::Char('j') => {
            lemma_moves(s, Step::Down);
        },
        KeyCode::PageUp | KeyCode::Char('b') | KeyCode::Char('u') => {
            lemma_moves(s, Step::PageUp);
        },
        KeyCode::PageDown | KeyCode::Char('f') | KeyCode::Char('d') => {
            lemma_moves(s, Step::PageDown);
        },
        KeyCode::Home | KeyCode::Char('g') => {
            lemma_moves(s, Step::Home);
        },
        KeyCode::End | KeyCode::Char('G') => {
            lemma_moves(s, Step::End);
        },
        KeyCode::Tab | KeyCode::Char('l') | KeyCode::Right => {
            lemma_tab_keys(s, Tab::at(s.place.tab.place() + 1));
            lemma_moves(s, Step::PageDown);
        },
        KeyCode::BackTab | KeyCode::Char('h') | KeyCode::Left => {
            lemma_tab_keys(s, Tab::at(s.place.tab.place() + 4));
            lemma_moves(s, Step::PageUp);
        },
        KeyCode::Char('/') => {
            lemma_slash_key(s);
        },
        KeyCode::Esc | KeyCode::Backspace => {
            lemma_back_key(s, code);
        },
        KeyCode::Enter | KeyCode::Char(' ') => {
            lemma_open_key(s);
        },
        KeyCode::Char('r') => {
            lemma_fetches(s, 0, 0, 0);
        },
        _ => {},
    }
}

proof fn lemma_info_key(s: BrowseModel, code: KeyCode)
    requires
        s.wf(),
    ensures
        s.info_key(code).wf(),
{
}

/// Keys keep the screen well-formed: the cursors stay on rows, library levels
/// are only entered in their tab, and a field in focus is one that is shown.
#[verifier::spinoff_prover]
pub proof fn law_keys_keep_the_screen_well_formed(s: BrowseModel, key: KeyEvent)
    requires
        s.wf(),
        s.lists.items.len() <= usize::MAX,
        s.lists.seasons.len() <= usize::MAX,
    ensures
        s.after_key(key).wf(),
{
    if s.inputs.search_focused {
        lemma_search_key(s, key);
    } else if s.inputs.filter_focused {
        lemma_filter_key(s, key);
    } else if key.is_modified_char() {
    } else if s.popups.sort_menu is Some {
        lemma_sort_menu_key(s, key.code);
    } else if s.popups.info_open {
        lemma_info_key(s, key.code);
    } else if s.place.series is Some {
        lemma_series_key(s, key.code);
    } else if s.list_action(key.code) is Some {
    } else {
        lemma_list_key(s, key.code);
        lemma_next_page(s.list_key(key.code));
    }
}

proof fn lemma_page_wf(s: BrowseModel, start_index: usize, list: Seq<Arc<MediaItem>>, total: usize)
    requires
        s.wf(),
    ensures
        s.with_page(start_index, list, total).wf(),
{
    let a = s.with_attempts(0);
    let t = BrowseModel {
        lists: ListsModel {
            total,
            all_items: if start_index == 0 {
                list
            } else {
                a.lists.all_items + list
            },
            ..a.lists
        },
        ..a
    }.apply_filter();
    assert(t.wf());
    lemma_fetches(t, 0, 0, 0);
}

proof fn lemma_items_wf(s: BrowseModel, gen: u64, items: Result<Seq<Arc<MediaItem>>, Error>)
    requires
        s.wf(),
    ensures
        s.after_items(gen, items).wf(),
{
}

proof fn lemma_page_answer_wf(
    s: BrowseModel,
    gen: u64,
    start_index: usize,
    limit: usize,
    page: Result<(Seq<Arc<MediaItem>>, i32), Error>,
)
    requires
        s.wf(),
    ensures
        s.after_page(gen, start_index, limit, page).wf(),
{
    match page {
        Ok((list, total)) => {
            lemma_page_wf(s.idle(), start_index, list, claimed(total));
        },
        Err(_) => {
            let failures = s.status.filter_load_attempts;
            if failures < FILTER_LOAD_MAX_RETRIES {
                lemma_fetches(
                    s.idle().with_attempts((failures + 1) as u32),
                    start_index,
                    limit,
                    retry_delay(failures),
                );
            }
        },
    }
}

proof fn lemma_refetches_wf(s: BrowseModel, gen: u64, done: Result<(), Error>)
    requires
        s.wf(),
    ensures
        s.after_toggle(gen, done).wf(),
        s.after_playback().wf(),
{
    lemma_fetches(s, 0, 0, 0);
    lemma_fetches(s.idle(), 0, 0, 0);
}

/// Answers keep the screen well-formed.
pub proof fn law_answers_keep_the_screen_well_formed(
    s: BrowseModel,
    gen: u64,
    items: Result<Seq<Arc<MediaItem>>, Error>,
    start_index: usize,
    limit: usize,
    page: Result<(Seq<Arc<MediaItem>>, i32), Error>,
    done: Result<(), Error>,
)
    requires
        s.wf(),
    ensures
        s.after_items(gen, items).wf(),
        s.after_page(gen, start_index, limit, page).wf(),
        s.after_toggle(gen, done).wf(),
        s.after_playback().wf(),
{
    lemma_items_wf(s, gen, items);
    lemma_page_answer_wf(s, gen, start_index, limit, page);
    lemma_refetches_wf(s, gen, done);
}

} // verus!
