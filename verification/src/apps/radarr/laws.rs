//! What holds of the Radarr browse screen as a whole.

use std::sync::Arc;
use vstd::prelude::*;

use crate::app::{KeyCode, KeyEvent};
use crate::apps::downloads::DownloadsModel;
use crate::apps::radarr::browse::{
    first_1080, preferred_quality, AddStep, Level, LookupEntry, SPINNER_FRAMES,
};
use crate::apps::radarr::msg::{CommandKind, RequestModel};
use crate::apps::radarr::state::{
    add_body, availability_value, entry_movies, entry_objects, matching, readable, title_matches,
    visible, BrowseModel, FilterModel, ListsModel,
};
use crate::arr::models::{Command, HistoryRecord, QualityProfile, QueueItem, Release, RootFolder};
use crate::arr::Error;
use crate::radarr::Movie;
use crate::text::{blank, lowercase};
use crate::ui::list::{
    is_order, law_cursor_stays_in_the_list, law_orders_keep_the_entries, reordered, Step,
};

verus! {

/// An answer under another generation than the awaited one changes nothing,
/// whatever it says.
pub proof fn law_stale_answers_change_nothing(
    s: BrowseModel,
    gen: u64,
    movies: Result<Seq<Arc<Movie>>, Error>,
    queue: Result<Seq<QueueItem>, Error>,
    releases: Result<Seq<Release>, Error>,
    history: Result<Seq<HistoryRecord>, Error>,
    kind: CommandKind,
    done: Result<(), Error>,
    lookup: Result<Seq<LookupEntry>, Error>,
    options: Result<(Seq<RootFolder>, Seq<QualityProfile>), Error>,
    added: Result<Arc<Movie>, Error>,
)
    ensures
        gen != s.gens.fetch ==> s.after_movies(gen, movies) == s,
        gen != s.gens.queue ==> s.after_queue(gen, queue) == s,
        gen != s.gens.fetch ==> s.after_releases(gen, releases) == s,
        gen != s.gens.fetch ==> s.after_history(gen, history) == s,
        gen != s.gens.fetch ==> s.after_command(gen, kind, done) == s,
        gen != s.gens.add_lookup ==> s.after_lookup(gen, lookup) == s,
        gen != s.gens.add_prereq ==> s.after_add_options(gen, options) == s,
        gen != s.gens.add ==> s.after_added(gen, added) == s,
{
}

/// Each request goes out under a generation that none before it had, and the
/// awaited generations stay behind the counter, until the counter starts over.
pub proof fn law_generations_are_fresh(
    s: BrowseModel,
    movie_id: i64,
    term: Seq<char>,
    title: Seq<char>,
)
    requires
        s.gens_in_order(),
        s.gens.counter < u64::MAX - 1,
    ensures
        ({
            let t = s.fetch_movies();
            t.gens_in_order() && s.gens.counter < t.gens.fetch
        }),
        ({
            let t = s.fetch_queue();
            t.gens_in_order() && (!s.status.queue_loading ==> s.gens.counter < t.gens.queue)
        }),
        ({
            let t = s.fetch_releases(movie_id);
            t.gens_in_order() && s.gens.counter < t.gens.fetch
        }),
        ({
            let t = s.fetch_add_options();
            t.gens_in_order() && s.gens.counter < t.gens.add_prereq
        }),
        ({
            let t = s.fetch_lookup(term);
            t.gens_in_order() && (!blank(term) ==> s.gens.counter < t.gens.add_lookup)
        }),
        ({
            let t = s.start_auto_search(movie_id, title);
            t.gens_in_order() && s.gens.counter < t.monitors.last().generation
        }),
        s.pop_level().gens_in_order(),
        s.commit_add().gens_in_order(),
{
}

/// Queue polls never overlap: while one is in flight, asking for another
/// changes nothing.
pub proof fn law_polls_never_overlap(s: BrowseModel)
    ensures
        s.status.queue_loading ==> s.fetch_queue() == s,
        s.fetch_queue().fetch_queue() == s.fetch_queue(),
        s.fetch_queue().status.queue_loading,
{
}

/// A character held with ctrl or alt is no shortcut: it changes nothing unless
/// a field has the focus.
pub proof fn law_modified_characters_change_nothing(s: BrowseModel, key: KeyEvent)
    requires
        key.is_modified_char(),
        !s.filter.focused,
        !s.add.search_focused,
    ensures
        s.after_key(key) == s,
        !s.quits(key),
{
}

/// Nothing modal lets a key through to quitting.
pub proof fn law_modal_screens_do_not_quit(s: BrowseModel, key: KeyEvent)
    requires
        s.is_modal(),
    ensures
        !s.quits(key),
{
}

/// Leaving the add screen supersedes its lookup and its add: neither can
/// surface an error on the list or pull the user away from it.
pub proof fn law_leaving_the_add_screen_supersedes(
    s: BrowseModel,
    lookup: Result<Seq<LookupEntry>, Error>,
    added: Result<Arc<Movie>, Error>,
)
    requires
        s.level is Add,
        s.gens_in_order(),
        s.gens.counter < u64::MAX - 1,
    ensures
        s.pop_level().level is MovieList,
        s.pop_level().after_lookup(s.gens.add_lookup, lookup) == s.pop_level(),
        s.pop_level().after_added(s.gens.add, added) == s.pop_level(),
{
}

/// Clearing the filter shows every movie again.
pub proof fn law_clearing_the_filter_restores_the_list(s: BrowseModel, key: KeyEvent)
    requires
        key.code == KeyCode::Esc,
        s.filter.focused || (!s.is_modal() && s.level is MovieList && s.filter.active
            && !s.overview.fullscreen),
    ensures
        s.after_key(key).lists.movies == s.lists.all_movies,
        !s.after_key(key).filter.active,
{
}

/// What the filter leaves visible is part of the list, in its order, and holds
/// exactly the movies whose titles match.
pub proof fn law_filter_keeps_order(movies: Seq<Arc<Movie>>, needle: Seq<char>)
    ensures
        matching(movies, needle).len() <= movies.len(),
        forall|i: int|
            0 <= i < movies.len() && title_matches(
                *#[trigger] movies[i],
                needle,
            ) ==> matching(movies, needle).contains(movies[i]),
        forall|k: int|
            0 <= k < matching(movies, needle).len()
                ==> title_matches(
                *#[trigger] matching(movies, needle)[k],
                needle,
            ) && movies.contains(matching(movies, needle)[k]),
    decreases movies.len(),
{
    if movies.len() > 0 {
        let rest = movies.drop_last();
        law_filter_keeps_order(rest, needle);
        let before = matching(rest, needle);
        let all = matching(movies, needle);
        assert forall|i: int|
            0 <= i < movies.len() && title_matches(
                *#[trigger] movies[i],
                needle,
            ) implies all.contains(movies[i]) by {
            if i < rest.len() {
                assert(rest[i] == movies[i]);
                let k = choose|k: int| 0 <= k < before.len() && before[k] == movies[i];
                assert(all[k] == movies[i]);
            } else {
                assert(all[all.len() - 1] == movies[i]);
            }
        }
        assert forall|k: int| 0 <= k < all.len() implies title_matches(
            *#[trigger] all[k],
            needle,
        ) && movies.contains(all[k]) by {
            if k < before.len() {
                assert(all[k] == before[k]);
                let i = choose|i: int| 0 <= i < rest.len() && rest[i] == before[k];
                assert(movies[i] == all[k]);
            } else {
                assert(movies[movies.len() - 1] == all[k]);
            }
        }
    }
}

/// The lookup's movies and objects stay aligned: the object that an add
/// forwards is the one its movie was read from.
pub proof fn law_lookup_lists_are_aligned(entries: Seq<LookupEntry>)
    ensures
        entry_movies(entries).len() == entry_objects(entries).len(),
        forall|i: int|
            0 <= i < entry_movies(entries).len() ==> exists|k: int|
                0 <= k < entries.len() && #[trigger] entries[k].movie == Some(
                    #[trigger] entry_movies(entries)[i],
                ) && entries[k].raw == entry_objects(entries)[i],
    decreases entries.len(),
{
    lemma_readable(entries);
    assert forall|i: int| 0 <= i < entry_movies(entries).len() implies exists|k: int|
        0 <= k < entries.len() && #[trigger] entries[k].movie == Some(
            #[trigger] entry_movies(entries)[i],
        ) && entries[k].raw == entry_objects(entries)[i] by {
        let e = readable(entries)[i];
        assert(entry_movies(entries)[i] == e.movie->0);
        assert(entry_objects(entries)[i] == e.raw);
        let k = choose|k: int| 0 <= k < entries.len() && entries[k] == e;
        assert(entries[k].movie == Some(entry_movies(entries)[i]));
    }
}

proof fn lemma_readable(entries: Seq<LookupEntry>)
    ensures
        forall|i: int|
            0 <= i < readable(entries).len() ==> (#[trigger] readable(entries)[i]).movie is Some
                && entries.contains(readable(entries)[i]),
    decreases entries.len(),
{
    if entries.len() > 0 {
        let rest = entries.drop_last();
        lemma_readable(rest);
        assert forall|i: int| 0 <= i < readable(entries).len() implies (
        #[trigger] readable(entries)[i]).movie is Some && entries.contains(
            readable(entries)[i],
        ) by {
            if i < readable(rest).len() {
                assert(readable(entries)[i] == readable(rest)[i]);
                let k = choose|k: int| 0 <= k < rest.len() && rest[k] == readable(rest)[i];
                assert(entries[k] == readable(entries)[i]);
            } else {
                assert(entries[entries.len() - 1] == readable(entries)[i]);
            }
        }
    }
}

/// Accepting every step of the wizard adds the highlighted movie to the first
/// root folder with the preferred profile, monitored, from its release on, and
/// asks for a search once it is added. The server itself is told not to
/// search.
pub proof fn law_accepting_the_wizard_adds_with_the_defaults(s: BrowseModel)
    requires
        !s.add.submitting,
        s.add.cursor < s.add.results.len(),
        s.add.results.len() == s.add.raw.len(),
        s.has_add_options(),
        s.add.quality_profiles.len() <= usize::MAX,
    ensures
        ({
            let chosen = s.start_add_flow().advance_add_flow().advance_add_flow();
            let t = chosen.advance_add_flow().advance_add_flow().advance_add_flow();
            &&& t.add.flow is None
            &&& t.add.submitting
            &&& t.add.pending_search
            &&& t.outbox == s.outbox.push(
                RequestModel::AddMovie {
                    add_gen: t.gens.add,
                    body: add_body(
                        s.add.raw[s.add.cursor as int],
                        s.add.quality_profiles[preferred_quality(s.add.quality_profiles)].id,
                        s.add.root_folders[0].path@,
                        true,
                        availability_value(2),
                    ),
                },
            )
        }),
{
    lemma_first_1080_in_range(s.add.quality_profiles);
    let a = s.start_add_flow();
    let b = a.advance_add_flow();
    assert(b.add.flow->0.step == AddStep::QualityProfile);
    let c = b.advance_add_flow();
    assert(c.add.flow->0.step == AddStep::MinAvailability);
    let d = c.advance_add_flow();
    assert(d.add.flow->0.step == AddStep::Monitored);
    let e = d.advance_add_flow();
    assert(e.add.flow->0.step == AddStep::Download);
}

proof fn lemma_first_1080_in_range(profiles: Seq<QualityProfile>)
    ensures
        first_1080(profiles) matches Some(i) ==> 0 <= i < profiles.len(),
    decreases profiles.len(),
{
    if profiles.len() > 0 {
        lemma_first_1080_in_range(profiles.drop_last());
    }
}

/// A second add cannot be started while one is in flight.
pub proof fn law_one_add_at_a_time(s: BrowseModel)
    requires
        s.add.submitting,
    ensures
        s.start_add_flow().add == s.add,
        s.start_add_flow().outbox == s.outbox,
{
}

/// A finished delete leaves the pages of the deleted movie and no others.
pub proof fn law_deletes_leave_only_their_own_pages(s: BrowseModel, deleted_id: i64)
    ensures
        match s.level {
            Level::MovieDetail { movie } | Level::Search { movie } => if movie.id == deleted_id {
                s.leave_deleted(deleted_id).level is MovieList
            } else {
                s.leave_deleted(deleted_id) == s
            },
            _ => s.leave_deleted(deleted_id) == s,
        },
{
}

/// A failed queue poll shows no error.
pub proof fn law_failed_polls_are_silent(s: BrowseModel, gen: u64, err: Error)
    ensures
        s.after_queue(gen, Err(err)).status.error == s.status.error,
        s.after_queue(gen, Err(err)).lists == s.lists,
{
}

/// The screen opens well-formed.
pub proof fn law_screen_opens_well_formed(gen_counter: u64, sort_count: usize)
    ensures
        BrowseModel::initial(gen_counter, sort_count).fetch_movies().fetch_queue().wf(),
        BrowseModel::initial(gen_counter, sort_count).gens_in_order(),
{
    assert(BrowseModel::initial(gen_counter, sort_count).downloads.prompt is None);
}

proof fn lemma_visible_len(movies: Seq<Arc<Movie>>, active: bool, filter: Seq<char>)
    ensures
        visible(movies, active, filter).len() <= movies.len(),
{
    law_filter_keeps_order(movies, lowercase(filter));
}

/// Filtering anew keeps the screen well-formed where everything else is.
proof fn lemma_apply_filter(s: BrowseModel)
    requires
        s.downloads.wf(),
        s.popups.delete_prompt is Some ==> s.popups.delete_prompt->0.wf(),
        s.status.spinner_frame < SPINNER_FRAMES,
        s.add.results.len() == s.add.raw.len(),
        s.lists.all_movies.len() <= usize::MAX,
        !s.filter.active ==> s.filter.input.value.len() == 0,
        s.filter.focused ==> s.filter.active,
    ensures
        s.apply_filter().wf(),
{
    lemma_visible_len(s.lists.all_movies, s.filter.active, s.filter.input.value);
}

proof fn lemma_move_cursor(s: BrowseModel, step: Step)
    requires
        s.wf(),
    ensures
        s.move_cursor(step).wf(),
{
    lemma_visible_len(s.lists.all_movies, s.filter.active, s.filter.input.value);
    match s.cursor_and_len() {
        Some((cursor, len)) => {
            if cursor < len {
                law_cursor_stays_in_the_list(step, cursor, len, s.page_jump());
            }
        },
        None => {},
    }
}

proof fn lemma_filter_key(s: BrowseModel, key: KeyEvent)
    requires
        s.wf(),
        s.filter.focused,
    ensures
        s.filter_key(key).wf(),
{
    match key.code {
        KeyCode::Esc => {
            lemma_apply_filter(
                BrowseModel {
                    filter: FilterModel {
                        focused: false,
                        input: s.filter.input.cleared(),
                        active: false,
                        ..s.filter
                    },
                    ..s
                },
            );
        },
        KeyCode::Enter
        | KeyCode::Tab
        | KeyCode::BackTab
        | KeyCode::Up
        | KeyCode::Down => {},
        _ => {
            if s.filter.input.edits(key) {
                lemma_apply_filter(
                    BrowseModel {
                        filter: FilterModel { input: s.filter.input.typed(key), ..s.filter },
                        ..s
                    },
                );
            }
        },
    }
}

proof fn lemma_sort_menu_key(s: BrowseModel, code: KeyCode)
    requires
        s.wf(),
        s.popups.sort_menu is Some,
    ensures
        s.sort_menu_key(code).wf(),
{
    lemma_visible_len(s.lists.all_movies, s.filter.active, s.filter.input.value);
}

proof fn lemma_back_key(s: BrowseModel, code: KeyCode)
    requires
        s.wf(),
        !s.filter.focused,
    ensures
        s.back_key(code).wf(),
{
    if s.level is MovieList && s.filter.active && code == KeyCode::Esc {
        lemma_apply_filter(
            BrowseModel {
                filter: FilterModel {
                    input: s.filter.input.cleared(),
                    active: false,
                    ..s.filter
                },
                ..s
            },
        );
    }
}

proof fn lemma_requests(s: BrowseModel, movie_id: i64, term: Seq<char>)
    requires
        s.wf(),
    ensures
        s.idle().wf(),
        s.fetch_movies().wf(),
        s.fetch_queue().wf(),
        s.fetch_releases(movie_id).wf(),
        s.fetch_add_options().wf(),
        s.fetch_lookup(term).wf(),
{
}

proof fn lemma_reload(s: BrowseModel)
    requires
        s.wf(),
    ensures
        s.fetch_movies().fetch_queue().wf(),
{
    lemma_requests(s, 0, Seq::empty());
    lemma_requests(s.fetch_movies(), 0, Seq::empty());
}

proof fn lemma_open_selected(s: BrowseModel)
    requires
        s.wf(),
    ensures
        s.open_selected().wf(),
{
}

proof fn lemma_enter_add(s: BrowseModel)
    requires
        s.wf(),
    ensures
        s.enter_add().wf(),
{
}

proof fn lemma_refresh(s: BrowseModel)
    requires
        s.wf(),
    ensures
        s.refresh().wf(),
{
    lemma_reload(s);
    lemma_requests(s, 0, Seq::empty());
    lemma_requests(s.fetch_add_options(), 0, s.add.search.value);
    match s.level {
        Level::Search { movie } => {
            lemma_requests(s, movie.id, Seq::empty());
        },
        _ => {},
    }
}

proof fn lemma_x_and_z(s: BrowseModel)
    requires
        s.wf(),
    ensures
        s.x_key().wf(),
        s.z_key().wf(),
{
}

proof fn lemma_open_downloads(s: BrowseModel)
    requires
        s.wf(),
    ensures
        (BrowseModel {
            level: Level::Downloads,
            downloads: DownloadsModel::initial(),
            ..s
        }).fetch_queue().wf(),
{
    lemma_requests(
        BrowseModel { level: Level::Downloads, downloads: DownloadsModel::initial(), ..s },
        0,
        Seq::empty(),
    );
}

#[verifier::spinoff_prover]
proof fn lemma_level_key(s: BrowseModel, code: KeyCode)
    requires
        s.wf(),
        !s.filter.focused,
    ensures
        s.level_key(code).wf(),
{
    match code {
        KeyCode::Up | KeyCode::Char('k') => {
            lemma_move_cursor(s, Step::Up);
        },
        KeyCode::Down | KeyCode::Char('j') => {
            lemma_move_cursor(s, Step::Down);
        },
        KeyCode::Char('d') => {
            lemma_move_cursor(s, Step::PageDown);
            lemma_open_downloads(s);
        },
        KeyCode::PageUp | KeyCode::Char('b') | KeyCode::Char('u') => {
            lemma_move_cursor(s, Step::PageUp);
        },
        KeyCode::PageDown | KeyCode::Char('f') => {
            lemma_move_cursor(s, Step::PageDown);
        },
        KeyCode::Home | KeyCode::Char('g') => {
            lemma_move_cursor(s, Step::Home);
        },
        KeyCode::End | KeyCode::Char('G') => {
            lemma_move_cursor(s, Step::End);
        },
        KeyCode::Esc | KeyCode::Backspace => {
            lemma_back_key(s, code);
        },
        KeyCode::Char('a') => {
            lemma_enter_add(s);
        },
        KeyCode::Enter | KeyCode::Char(' ') => {
            lemma_open_selected(s);
        },
        KeyCode::Char('x') | KeyCode::Char('z') => {
            lemma_x_and_z(s);
        },
        KeyCode::Char('r') => {
            lemma_refresh(s);
        },
        _ => {},
    }
}

proof fn lemma_add_search_key(s: BrowseModel, key: KeyEvent)
    requires
        s.wf(),
    ensures
        s.add_search_key(key).wf(),
{
}

proof fn lemma_wizard_key(s: BrowseModel, code: KeyCode)
    requires
        s.wf(),
        s.add.flow is Some,
    ensures
        s.wizard_key(code).wf(),
{
}

proof fn lemma_prompt_keys(s: BrowseModel, code: KeyCode)
    requires
        s.wf(),
    ensures
        s.downloads.prompt is Some ==> s.downloads_prompt_key(code).wf(),
        s.popups.confirm is Some ==> s.confirm_key(code).wf(),
        s.popups.delete_prompt is Some ==> s.delete_prompt_key(code).wf(),
{
}

proof fn lemma_menu_keys(s: BrowseModel, code: KeyCode)
    requires
        s.wf(),
    ensures
        s.popups.search_menu is Some ==> s.search_menu_key(code).wf(),
        s.popups.rejections is Some ==> s.rejections_key(code).wf(),
        s.overview.fullscreen ==> s.overview_key(code).wf(),
{
}

/// Keys keep the screen well-formed: what is visible is what the filter leaves
/// of the list, with the cursor on one of its rows, and the lookup's lists are
/// aligned.
#[verifier::spinoff_prover]
pub proof fn law_keys_keep_the_screen_well_formed(s: BrowseModel, key: KeyEvent)
    requires
        s.wf(),
    ensures
        s.after_key(key).wf(),
{
    if s.filter.focused {
        lemma_filter_key(s, key);
    } else if s.add.search_focused {
        lemma_add_search_key(s, key);
    } else if key.is_modified_char() {
    } else if s.add.flow is Some {
        lemma_wizard_key(s, key.code);
    } else if s.downloads.prompt is Some || s.popups.confirm is Some
        || s.popups.delete_prompt is Some {
        lemma_prompt_keys(s, key.code);
    } else if s.popups.sort_menu is Some {
        lemma_sort_menu_key(s, key.code);
    } else if s.popups.search_menu is Some || s.popups.rejections is Some || s.overview.fullscreen {
        lemma_menu_keys(s, key.code);
    } else {
        lemma_level_key(s, key.code);
    }
}

/// Ticks keep the screen well-formed.
pub proof fn law_ticks_keep_the_screen_well_formed(s: BrowseModel)
    requires
        s.wf(),
    ensures
        s.after_tick().wf(),
{
}

/// The movie list keeps the screen well-formed.
pub proof fn lemma_movies_wf(s: BrowseModel, gen: u64, movies: Result<Seq<Arc<Movie>>, Error>)
    requires
        s.wf(),
        movies is Ok ==> movies->Ok_0.len() <= usize::MAX,
    ensures
        s.after_movies(gen, movies).wf(),
{
    if movies is Ok {
        let idle = s.idle();
        lemma_apply_filter(
            BrowseModel {
                level: s.level_synced(movies->Ok_0),
                lists: ListsModel { all_movies: movies->Ok_0, ..idle.lists },
                ..idle
            },
        );
    }
}

/// Sorting keeps the screen well-formed.
pub proof fn lemma_sorted_wf(s: BrowseModel, order: Seq<usize>)
    requires
        s.wf(),
        order.len() <= usize::MAX,
    ensures
        s.sorted(order).wf(),
{
    if is_order(order, s.lists.all_movies.len()) {
        lemma_apply_filter(
            BrowseModel {
                lists: ListsModel { all_movies: reordered(s.lists.all_movies, order), ..s.lists },
                ..s
            },
        );
    }
}

pub proof fn lemma_lookup_wf(s: BrowseModel, gen: u64, lookup: Result<Seq<LookupEntry>, Error>)
    requires
        s.wf(),
    ensures
        s.after_lookup(gen, lookup).wf(),
{
    match lookup {
        Ok(entries) => {
            law_lookup_lists_are_aligned(entries);
        },
        Err(_) => {},
    }
}

pub proof fn lemma_quiet_answers_wf(
    s: BrowseModel,
    gen: u64,
    queue: Result<Seq<QueueItem>, Error>,
    releases: Result<Seq<Release>, Error>,
    history: Result<Seq<HistoryRecord>, Error>,
    options: Result<(Seq<RootFolder>, Seq<QualityProfile>), Error>,
    search: Result<Command, Error>,
)
    requires
        s.wf(),
    ensures
        s.after_queue(gen, queue).wf(),
        s.after_releases(gen, releases).wf(),
        s.after_history(gen, history).wf(),
        s.after_add_options(gen, options).wf(),
        s.after_search_started(gen, search).wf(),
        s.after_search_polled(gen, search).wf(),
{
}

proof fn lemma_success(s: BrowseModel, kind: CommandKind)
    requires
        s.wf(),
    ensures
        s.after_success(kind).wf(),
{
    match kind {
        CommandKind::AutoSearch => {
            lemma_requests(
                s.noticed("search started; grabbed downloads appear in the queue"),
                0,
                Seq::empty(),
            );
        },
        CommandKind::Grab => {
            lemma_reload(s);
        },
        CommandKind::DeleteFile => {
            lemma_reload(s);
        },
        CommandKind::DeleteMovie(deleted_id) => {
            assert(s.leave_deleted(deleted_id).wf());
            lemma_reload(s.leave_deleted(deleted_id));
        },
        CommandKind::DeleteQueue => {
            lemma_requests(
                BrowseModel {
                    downloads: DownloadsModel { marks: Set::empty(), ..s.downloads },
                    ..s
                },
                0,
                Seq::empty(),
            );
        },
    }
}

pub proof fn lemma_command_wf(s: BrowseModel, gen: u64, kind: CommandKind, done: Result<(), Error>)
    requires
        s.wf(),
    ensures
        s.after_command(gen, kind, done).wf(),
{
    lemma_requests(s, 0, Seq::empty());
    lemma_success(s.idle(), kind);
}

pub proof fn lemma_added_wf(s: BrowseModel, gen: u64, added: Result<Arc<Movie>, Error>)
    requires
        s.wf(),
    ensures
        s.after_added(gen, added).wf(),
{
}

/// Sorting keeps the list's movies, each as often as it was there, and whatever
/// names them otherwise than once each is refused.
pub proof fn law_sorting_keeps_the_movies(s: BrowseModel, order: Seq<usize>)
    ensures
        s.sorted(order).lists.all_movies.to_multiset() == s.lists.all_movies.to_multiset(),
        !is_order(order, s.lists.all_movies.len()) ==> s.sorted(order) == s,
{
    if is_order(order, s.lists.all_movies.len()) {
        law_orders_keep_the_entries(s.lists.all_movies, order);
    }
}

} // verus!
