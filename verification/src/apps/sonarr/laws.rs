//! What holds of the Sonarr browse screen as a whole.

use std::sync::Arc;
use vstd::prelude::*;

use crate::app::{KeyCode, KeyEvent};
use crate::apps::auto_search::{polls, ticked};
use crate::apps::downloads::DownloadsModel;
use crate::apps::sonarr::browse::{
    Level, LookupEntry, MONITORED, MOVE_FILES, QUALITY, QUEUE_BACKOFF_MAX_SHIFT,
    QUEUE_POLL_MAX_TICKS, QUEUE_POLL_TICKS, ROOT, SEARCH, SEASON_FOLDER, SERIES_TYPE,
    SERIES_TYPE_FIELD, SPINNER_FRAMES,
};
use crate::apps::sonarr::msg::{CallModel, CommandKind, RequestModel};
use crate::apps::sonarr::state::{
    add_body, entry_objects, entry_series, in_order, matching, new_counts, placed, poll_interval,
    readable, title_matches, visible, AddModel, BrowseModel, FilterModel, ListsModel,
};
use crate::arr::models::{Command, HistoryRecord, QualityProfile, QueueItem, Release, RootFolder};
use crate::arr::Error;
use crate::sonarr::{Episode, Season, Series};
use crate::text::{blank, lowercase, trimmed};
use crate::ui::form::{
    field_at, law_focus_stays_in_the_form, lemma_field_at_in_range, FieldModel, FormModel,
};
use crate::ui::list::{
    is_order, law_cursor_stays_in_the_list, law_orders_keep_the_entries, reordered, Step,
};

verus! {

/// A list fetched under another generation than the awaited one changes
/// nothing, whatever the answer says. Neither does a mutation that succeeded
/// under another, or an add that failed there.
pub proof fn law_stale_answers_change_nothing(
    s: BrowseModel,
    gen: u64,
    series: Result<Seq<Arc<Series>>, Error>,
    episodes: Result<Seq<Arc<Episode>>, Error>,
    queue: Result<Seq<QueueItem>, Error>,
    releases: Result<Seq<Release>, Error>,
    history: Result<Seq<HistoryRecord>, Error>,
    kind: CommandKind,
    lookup: Result<Seq<LookupEntry>, Error>,
    options: Result<(Seq<RootFolder>, Seq<QualityProfile>), Error>,
    err: Error,
)
    ensures
        gen != s.gens.fetch ==> s.after_series(gen, series) == s,
        gen != s.gens.fetch ==> s.after_episodes(gen, episodes) == s,
        gen != s.gens.queue ==> s.after_queue(gen, queue) == s,
        gen != s.gens.fetch ==> s.after_releases(gen, releases) == s,
        gen != s.gens.fetch ==> s.after_history(gen, history) == s,
        gen != s.gens.fetch ==> s.after_command(gen, kind, Ok(())) == s,
        gen != s.gens.add_lookup ==> s.after_lookup(gen, lookup) == s,
        gen != s.gens.add_prereq ==> s.after_add_options(gen, options) == s,
        gen != s.gens.add ==> s.after_added(gen, Err(err)) == s,
{
}

/// A mutation that failed is shown however far the user has moved on, and ends
/// the spinner only of its own view.
pub proof fn law_failed_mutations_are_shown(s: BrowseModel, gen: u64, kind: CommandKind, err: Error)
    requires
        !(err is Unauthorized),
    ensures
        s.after_command(gen, kind, Err(err)).status.error == Some(err.text()),
        gen != s.gens.fetch ==> s.after_command(gen, kind, Err(err)).status.loading
            == s.status.loading,
        s.after_command(gen, kind, Err(err)).level == s.level,
        s.after_command(gen, kind, Err(err)).lists == s.lists,
{
}

/// Each request goes out under a generation that none before it had, and the
/// awaited generations stay behind the counter, until the counter starts over.
pub proof fn law_generations_are_fresh(
    s: BrowseModel,
    id: i64,
    season_number: i32,
    term: Seq<char>,
    title: Seq<char>,
)
    requires
        s.gens_in_order(),
        s.gens.counter < u64::MAX - 1,
    ensures
        ({
            let t = s.fetch_series();
            t.gens_in_order() && s.gens.counter < t.gens.fetch
        }),
        ({
            let t = s.fetch_episodes(id, season_number);
            t.gens_in_order() && s.gens.counter < t.gens.fetch
        }),
        ({
            let t = s.fetch_queue();
            t.gens_in_order() && (!s.status.queue_loading ==> s.gens.counter < t.gens.queue)
        }),
        ({
            let t = s.fetch_releases(id);
            t.gens_in_order() && s.gens.counter < t.gens.fetch
        }),
        ({
            let t = s.fetch_add_options();
            t.gens_in_order() && s.gens.counter < t.gens.add_prereq
        }),
        ({
            let t = s.fetch_lookup(term);
            t.gens_in_order() && (!blank(term) ==> s.gens.counter < t.gens.add_lookup)
        }),
        ({
            let t = s.start_auto_search(id, title);
            t.gens_in_order() && s.gens.counter < t.monitors.last().generation
        }),
        s.pop_level().gens_in_order(),
{
}

/// Queue polls never overlap: while one is in flight, asking for another
/// changes nothing.
pub proof fn law_polls_never_overlap(s: BrowseModel)
    ensures
        s.status.queue_loading ==> s.fetch_queue() == s,
        s.fetch_queue().fetch_queue() == s.fetch_queue(),
        s.fetch_queue().status.queue_loading,
{
}

/// A failed poll shows no error and leaves the queue as it was; it only makes
/// the next one come later.
pub proof fn law_failed_polls_are_silent(s: BrowseModel, gen: u64, err: Error)
    ensures
        s.after_queue(gen, Err(err)).status.error == s.status.error,
        s.after_queue(gen, Err(err)).lists == s.lists,
        s.status.queue_backoff <= QUEUE_BACKOFF_MAX_SHIFT ==> poll_interval(
            s.status.queue_backoff,
        ) <= poll_interval(s.after_queue(gen, Err(err)).status.queue_backoff),
{
}

/// The interval between polls grows with the failures in a row and stays
/// between its first value and the cap; a poll that succeeds brings it back.
pub proof fn law_poll_interval_is_bounded(
    s: BrowseModel,
    queue: Seq<QueueItem>,
    fewer: u32,
    more: u32,
)
    ensures
        QUEUE_POLL_TICKS <= poll_interval(fewer) <= QUEUE_POLL_MAX_TICKS,
        fewer <= more ==> poll_interval(fewer) <= poll_interval(more),
        poll_interval(s.after_queue(s.gens.queue, Ok(queue)).status.queue_backoff)
            == QUEUE_POLL_TICKS,
{
}

/// A tab that is not shown, or that shows no markers, polls nothing of its own
/// accord.
pub proof fn law_hidden_tabs_do_not_poll(s: BrowseModel)
    requires
        !s.status.active || s.level is SeriesList,
        s.monitors.len() == 0,
    ensures
        s.after_tick().outbox == s.outbox,
        s.after_tick().gens == s.gens,
{
    let ticks = ticked(
        s.monitors,
        new_counts(s.lists.queue, s.monitors),
    );
    assert(ticks.len() == 0);
    assert(polls(ticks) =~= Seq::empty());
    assert(s.after_tick().outbox =~= s.outbox);
}

/// A character held with ctrl or alt is no shortcut: it changes nothing unless
/// a field has the focus.
pub proof fn law_modified_characters_change_nothing(s: BrowseModel, key: KeyEvent)
    requires
        key.is_modified_char(),
        !s.filter.focused,
        !s.add.search_focused,
    ensures
        s.after_key(key) == s,
        !s.quits(key),
{
}

/// Nothing modal lets a key through to quitting.
pub proof fn law_modal_screens_do_not_quit(s: BrowseModel, key: KeyEvent)
    requires
        s.is_modal(),
    ensures
        !s.quits(key),
{
}

/// Leaving the add screen supersedes its lookup and its add: the lookup can
/// change nothing more, a failed add neither, and one that succeeded does not
/// pull the user away from the list.
pub proof fn law_leaving_the_add_screen_supersedes(
    s: BrowseModel,
    lookup: Result<Seq<LookupEntry>, Error>,
    added: Result<Arc<Series>, Error>,
)
    requires
        s.level is Add,
        s.gens_in_order(),
        s.gens.counter < u64::MAX - 1,
    ensures
        s.pop_level().level is SeriesList,
        s.pop_level().after_lookup(s.gens.add_lookup, lookup) == s.pop_level(),
        added is Err ==> s.pop_level().after_added(s.gens.add, added) == s.pop_level(),
        s.pop_level().after_added(s.gens.add, added).level is SeriesList,
{
}

/// Leaving the search results supersedes the search: its releases and its
/// history can change nothing more.
pub proof fn law_leaving_the_results_supersedes(
    s: BrowseModel,
    releases: Result<Seq<Release>, Error>,
    history: Result<Seq<HistoryRecord>, Error>,
)
    requires
        s.level is Search,
        s.gens_in_order(),
        s.gens.counter < u64::MAX,
    ensures
        s.pop_level().level is Episodes,
        s.pop_level().after_releases(s.gens.fetch, releases) == s.pop_level(),
        s.pop_level().after_history(s.gens.fetch, history) == s.pop_level(),
{
}

/// Clearing the filter shows every series again.
pub proof fn law_clearing_the_filter_restores_the_list(s: BrowseModel, key: KeyEvent)
    requires
        key.code == KeyCode::Esc,
        s.filter.focused || (!s.is_modal() && s.level is SeriesList && s.filter.active),
    ensures
        s.after_key(key).lists.filtered == Seq::new(s.lists.all_series.len(), |i: int| i as usize),
        s.after_key(key).lists.all_series == s.lists.all_series,
        !s.after_key(key).filter.active,
{
}

/// What the filter leaves visible are the positions of exactly the series whose
/// titles match, in the order of the list.
pub proof fn law_filter_keeps_order(all: Seq<Arc<Series>>, needle: Seq<char>)
    requires
        all.len() <= usize::MAX,
    ensures
        matching(all, needle).len() <= all.len(),
        forall|i: int|
            #![trigger all[i]]
            0 <= i < all.len() && title_matches(*all[i], needle) ==> matching(
                all,
                needle,
            ).contains(i as usize),
        forall|k: int|
            #![trigger matching(all, needle)[k]]
            0 <= k < matching(all, needle).len() ==> matching(all, needle)[k] < all.len()
                && title_matches(*all[matching(all, needle)[k] as int], needle),
        forall|j: int, k: int|
            #![trigger matching(all, needle)[j], matching(all, needle)[k]]
            0 <= j < k < matching(all, needle).len() ==> matching(all, needle)[j] < matching(
                all,
                needle,
            )[k],
    decreases all.len(),
{
    if all.len() > 0 {
        let rest = all.drop_last();
        law_filter_keeps_order(rest, needle);
        let before = matching(rest, needle);
        let now = matching(all, needle);
        assert forall|i: int|
            #![trigger all[i]]
            0 <= i < all.len() && title_matches(*all[i], needle) implies now.contains(
            i as usize,
        ) by {
            if i < rest.len() {
                assert(rest[i] == all[i]);
                let k = choose|k: int| 0 <= k < before.len() && before[k] == i as usize;
                assert(now[k] == i as usize);
            } else {
                assert(now[now.len() - 1] == i as usize);
            }
        }
        assert forall|k: int|
            #![trigger now[k]]
            0 <= k < now.len() implies now[k] < all.len() && title_matches(
            *all[now[k] as int],
            needle,
        ) by {
            if k < before.len() {
                assert(now[k] == before[k]);
                assert(rest[before[k] as int] == all[before[k] as int]);
            }
        }
        assert forall|j: int, k: int|
            #![trigger now[j], now[k]]
            0 <= j < k < now.len() implies now[j] < now[k] by {
            assert(now[j] == before[j]);
            if k < before.len() {
                assert(now[k] == before[k]);
            }
        }
    }
}

/// The lookup's series and objects stay aligned: the object that an add
/// forwards is the one its series was read from.
pub proof fn law_lookup_lists_are_aligned(entries: Seq<LookupEntry>)
    ensures
        entry_series(entries).len() == entry_objects(entries).len(),
        forall|i: int|
            0 <= i < entry_series(entries).len() ==> exists|k: int|
                0 <= k < entries.len() && #[trigger] entries[k].series == Some(
                    #[trigger] entry_series(entries)[i],
                ) && entries[k].raw == entry_objects(entries)[i],
{
    lemma_readable(entries);
    assert forall|i: int| 0 <= i < entry_series(entries).len() implies exists|k: int|
        0 <= k < entries.len() && #[trigger] entries[k].series == Some(
            #[trigger] entry_series(entries)[i],
        ) && entries[k].raw == entry_objects(entries)[i] by {
        let e = readable(entries)[i];
        assert(entry_series(entries)[i] == e.series->0);
        assert(entry_objects(entries)[i] == e.raw);
        let k = choose|k: int| 0 <= k < entries.len() && entries[k] == e;
        assert(entries[k].series == Some(entry_series(entries)[i]));
    }
}

proof fn lemma_readable(entries: Seq<LookupEntry>)
    ensures
        forall|i: int|
            0 <= i < readable(entries).len() ==> (#[trigger] readable(entries)[i]).series is Some
                && entries.contains(readable(entries)[i]),
    decreases entries.len(),
{
    if entries.len() > 0 {
        let rest = entries.drop_last();
        lemma_readable(rest);
        assert forall|i: int| 0 <= i < readable(entries).len() implies (
        #[trigger] readable(entries)[i]).series is Some && entries.contains(
            readable(entries)[i],
        ) by {
            if i < readable(rest).len() {
                assert(readable(entries)[i] == readable(rest)[i]);
                let k = choose|k: int| 0 <= k < rest.len() && rest[k] == readable(rest)[i];
                assert(entries[k] == readable(entries)[i]);
            } else {
                assert(entries[entries.len() - 1] == readable(entries)[i]);
            }
        }
    }
}

// The order of the episodes.

/// Whether episodes stand by number.
pub open spec fn by_number(list: Seq<Arc<Episode>>) -> bool {
    forall|i: int, j: int|
        #![trigger list[i], list[j]]
        0 <= i < j < list.len() ==> list[i].episode_number <= list[j].episode_number
}

/// The episodes of one number, in the order they stand in.
pub open spec fn of_number(list: Seq<Arc<Episode>>, number: i32) -> Seq<Arc<Episode>>
    decreases list.len(),
{
    if list.len() == 0 {
        Seq::empty()
    } else if list.last().episode_number == number {
        of_number(list.drop_last(), number).push(list.last())
    } else {
        of_number(list.drop_last(), number)
    }
}

proof fn lemma_none_of_number(list: Seq<Arc<Episode>>, number: i32)
    requires
        forall|i: int| 0 <= i < list.len() ==> (#[trigger] list[i]).episode_number != number,
    ensures
        of_number(list, number) == Seq::<Arc<Episode>>::empty(),
    decreases list.len(),
{
    if list.len() > 0 {
        assert(list.last() == list[list.len() - 1]);
        lemma_none_of_number(list.drop_last(), number);
    }
}

proof fn lemma_placed(list: Seq<Arc<Episode>>, episode: Arc<Episode>, number: i32)
    requires
        by_number(list),
    ensures
        by_number(placed(list, episode)),
        placed(list, episode).len() == list.len() + 1,
        placed(list, episode).to_multiset() == list.to_multiset().insert(episode),
        forall|i: int|
            0 <= i < placed(list, episode).len() ==> (#[trigger] placed(list, episode)[i]
                == episode) || list.contains(placed(list, episode)[i]),
        of_number(placed(list, episode), number) == (if episode.episode_number == number {
            of_number(list, number).push(episode)
        } else {
            of_number(list, number)
        }),
    decreases list.len(),
{
    broadcast use vstd::seq_lib::group_to_multiset_ensures;

    if list.len() == 0 || list.last().episode_number <= episode.episode_number {
        let all = list.push(episode);
        assert(all.drop_last() =~= list);
        assert(forall|i: int| 0 <= i < list.len() ==> all[i] == #[trigger] list[i]);
        assert forall|i: int| 0 <= i < all.len() implies (#[trigger] all[i] == episode)
            || list.contains(all[i]) by {
            if i < list.len() {
                assert(all[i] == list[i]);
            }
        }
        if list.len() > 0 {
            assert forall|i: int, j: int|
                #![trigger all[i], all[j]]
                0 <= i < j < all.len() implies all[i].episode_number <= all[j].episode_number by {
                assert(all[i] == list[i]);
                let end = list[list.len() - 1];
                assert(end.episode_number <= episode.episode_number);
                if j < list.len() {
                    assert(all[j] == list[j]);
                } else if i < list.len() - 1 {
                    assert(list[i].episode_number <= end.episode_number);
                }
            }
        }
    } else {
        let rest = list.drop_last();
        let last = list.last();
        assert(by_number(rest)) by {
            assert(forall|i: int| 0 <= i < rest.len() ==> rest[i] == #[trigger] list[i]);
        }
        lemma_placed(rest, episode, number);
        let inner = placed(rest, episode);
        let all = inner.push(last);
        assert(all.drop_last() =~= inner);
        assert(list =~= rest.push(last));
        assert forall|i: int| 0 <= i < inner.len() implies (#[trigger] inner[i]).episode_number
            <= last.episode_number by {
            if inner[i] != episode {
                let k = choose|k: int| 0 <= k < rest.len() && rest[k] == inner[i];
                assert(list[k] == rest[k]);
                assert(list[list.len() - 1] == last);
            }
        }
        assert forall|i: int, j: int|
            #![trigger all[i], all[j]]
            0 <= i < j < all.len() implies all[i].episode_number <= all[j].episode_number by {
            assert(all[i] == inner[i]);
            if j < inner.len() {
                assert(all[j] == inner[j]);
            }
        }
        assert forall|i: int| 0 <= i < all.len() implies (#[trigger] all[i] == episode)
            || list.contains(all[i]) by {
            if i < inner.len() {
                assert(all[i] == inner[i]);
                if inner[i] != episode {
                    let k = choose|k: int| 0 <= k < rest.len() && rest[k] == inner[i];
                    assert(list[k] == all[i]);
                }
            } else {
                assert(list[list.len() - 1] == all[i]);
            }
        }
        assert(all.to_multiset() =~= list.to_multiset().insert(episode));
        // The last episode's number lies above the placed one's, so no episode
        // of the placed number is moved past it.
        if last.episode_number == number {
            assert(episode.episode_number != number);
        }
        if episode.episode_number == number {
            assert(last.episode_number != number);
        }
    }
}

/// The episodes are shown by number, each of them once, and those of one number
/// in the order they came.
pub proof fn law_episodes_are_shown_by_number(list: Seq<Arc<Episode>>, number: i32)
    ensures
        by_number(in_order(list)),
        in_order(list).to_multiset() == list.to_multiset(),
        of_number(in_order(list), number) == of_number(list, number),
    decreases list.len(),
{
    broadcast use vstd::seq_lib::group_to_multiset_ensures;

    if list.len() > 0 {
        let rest = list.drop_last();
        law_episodes_are_shown_by_number(rest, number);
        lemma_placed(in_order(rest), list.last(), number);
        assert(list =~= rest.push(list.last()));
        assert(in_order(list).to_multiset() =~= list.to_multiset());
    } else {
        assert(list =~= Seq::empty());
    }
}

// Adding and editing.

/// Accepting the add form as it opens adds the highlighted series to the first
/// root folder with the first profile, monitored, in season folders, as a
/// standard series, and asks for a search once it is added. The server itself
/// is told not to search.
pub proof fn law_accepting_the_form_adds_with_the_defaults(s: BrowseModel)
    requires
        !s.add.submitting,
        s.add.cursor < s.add.results.len(),
        s.add.results.len() == s.add.raw.len(),
        s.has_add_options(),
        trimmed(s.add.root_folders[0].path@).len() > 0,
    ensures
        ({
            let opened = s.start_add_flow();
            let t = opened.commit_form(opened.add.form->0);
            &&& t.add.form is None
            &&& t.add.submitting
            &&& t.add.pending_search
            &&& t.outbox == s.outbox.push(
                RequestModel::AddSeries {
                    add_gen: t.gens.add,
                    body: add_body(
                        s.add.raw[s.add.cursor as int],
                        s.add.quality_profiles[0].id,
                        trimmed(s.add.root_folders[0].path@),
                        true,
                        true,
                        "standard"@,
                    ),
                },
            )
        }),
{
    reveal_with_fuel(field_at, 8);
    let form = FormModel::opened(s.add_fields(), "Add");
    assert(form.text(ROOT) == s.add.root_folders[0].path@);
    assert(form.selected(QUALITY) == 0);
    assert(form.selected(SERIES_TYPE_FIELD) == 0);
    assert(form.selected(SEASON_FOLDER) == 0);
    assert(form.selected(MONITORED) == 0);
    assert(form.selected(SEARCH) == 0);
    assert(SERIES_TYPE@[0].1 == "standard");
}

/// A second add cannot be started while one is in flight.
pub proof fn law_one_add_at_a_time(s: BrowseModel)
    requires
        s.add.submitting,
    ensures
        s.start_add_flow().add == s.add,
        s.start_add_flow().outbox == s.outbox,
{
}

/// What an add form would send stays the object it was opened on, whatever
/// lookups or lists arrive in the meantime.
pub proof fn law_forms_keep_their_object(
    s: BrowseModel,
    gen: u64,
    lookup: Result<Seq<LookupEntry>, Error>,
    series: Result<Seq<Arc<Series>>, Error>,
)
    ensures
        s.after_lookup(gen, lookup).add.form == s.add.form,
        s.after_series(gen, series).add.form == s.add.form,
{
}

/// The search menu stays on the episode it was opened on, whatever episodes
/// arrive in the meantime.
pub proof fn law_search_menu_keeps_its_episode(
    s: BrowseModel,
    gen: u64,
    episodes: Result<Seq<Arc<Episode>>, Error>,
)
    ensures
        s.after_episodes(gen, episodes).popups.search_menu == s.popups.search_menu,
{
}

/// An edit sends only what is other than the form opened with.
pub proof fn law_edits_send_only_changes(s: BrowseModel, id: i64, form: FormModel)
    ensures
        s.edits(id, form) matches CallModel::EditOptions {
            root_folder,
            quality_profile_id,
            series_type,
            season_folder,
            ..
        } && (root_folder is Some ==> form.changed(ROOT)) && (quality_profile_id is Some
            ==> form.changed(QUALITY)) && (series_type is Some ==> form.changed(
            SERIES_TYPE_FIELD,
        )) && (season_folder is Some ==> form.changed(SEASON_FOLDER)),
        !form.changed(ROOT) && !form.changed(QUALITY) && !form.changed(SERIES_TYPE_FIELD)
            && !form.changed(SEASON_FOLDER) ==> s.commit_edit(id, form) == s.noticed("no changes"),
{
}

/// The edit form, accepted as it opens, sends nothing.
pub proof fn law_untouched_edits_send_nothing(s: BrowseModel)
    requires
        s.editable() is Some,
        s.has_add_options(),
    ensures
        ({
            let opened = s.start_edit_flow();
            opened.commit_form(opened.add.form->0) == s.with_form(None).noticed("no changes")
        }),
{
    reveal_with_fuel(field_at, 8);
    let form = FormModel::opened(s.edit_fields(s.editable()->0), "Save");
    assert(!form.changed(ROOT));
    assert(!form.changed(QUALITY));
    assert(!form.changed(SERIES_TYPE_FIELD));
    assert(!form.changed(SEASON_FOLDER));
}

/// The move-files row is shown exactly while the root folder is another than
/// the form opened with, and is back on its first answer once it is not.
pub proof fn law_move_files_follows_the_root(form: FormModel, row: int)
    requires
        field_at(form.fields, MOVE_FILES) == Some(row),
        0 <= row < form.fields.len(),
    ensures
        BrowseModel::root_changed(form).fields[row].visible == form.changed(ROOT),
        !form.changed(ROOT) ==> BrowseModel::root_changed(form).fields[row].selected
            == form.fields[row].initial_selected,
{
    let reset = form.reset(MOVE_FILES);
    lemma_field_at_kept(form.fields, reset.fields, MOVE_FILES);
}

proof fn lemma_field_at_kept(
    before: Seq<FieldModel>,
    after: Seq<FieldModel>,
    id: usize,
)
    requires
        before.len() == after.len(),
        forall|i: int| 0 <= i < before.len() ==> (#[trigger] before[i]).id == after[i].id,
    ensures
        field_at(before, id) == field_at(after, id),
    decreases before.len(),
{
    if before.len() > 0 {
        assert forall|i: int| 0 <= i < before.drop_last().len() implies (
        #[trigger] before.drop_last()[i]).id == after.drop_last()[i].id by {
            assert(before[i].id == after[i].id);
        }
        lemma_field_at_kept(before.drop_last(), after.drop_last(), id);
        assert(before[before.len() - 1].id == after[before.len() - 1].id);
    }
}

/// An edit asked for before its options have arrived opens by itself when they
/// do, as it would have opened then.
pub proof fn law_deferred_edits_open_with_their_options(
    s: BrowseModel,
    folders: Seq<RootFolder>,
    profiles: Seq<QualityProfile>,
)
    requires
        s.editable() is Some,
        !s.has_add_options(),
        folders.len() > 0,
        profiles.len() > 0,
    ensures
        ({
            let waiting = s.start_edit_flow();
            let opened = waiting.after_add_options(waiting.gens.add_prereq, Ok((folders, profiles)));
            let there = BrowseModel {
                add: AddModel {
                    root_folders: folders,
                    quality_profiles: profiles,
                    ..s.add
                },
                ..s
            };
            &&& waiting.add.form == s.add.form
            &&& opened.add.form == there.start_edit_flow().add.form
            &&& opened.add.form is Some
            &&& opened.add.pending_edit is None
            &&& !opened.status.loading
        }),
{
}

/// A finished delete leaves the pages of the deleted series and no others.
pub proof fn law_deletes_leave_only_their_own_pages(s: BrowseModel, deleted_id: i64)
    ensures
        match s.viewed_series() {
            Some(series) => if series.id == deleted_id {
                s.leave_deleted(deleted_id).level is SeriesList
            } else {
                s.leave_deleted(deleted_id) == s
            },
            None => s.leave_deleted(deleted_id) == s,
        },
{
}

// Well-formedness.

/// The screen opens well-formed.
pub proof fn law_screen_opens_well_formed(gen_counter: u64, sort_count: usize)
    ensures
        BrowseModel::initial(gen_counter, sort_count).fetch_series().wf(),
        BrowseModel::initial(gen_counter, sort_count).gens_in_order(),
{
    let s = BrowseModel::initial(gen_counter, sort_count);
    assert(s.lists.filtered =~= visible(s.lists.all_series, false, s.filter.input.value));
}

proof fn lemma_visible_len(all: Seq<Arc<Series>>, active: bool, filter: Seq<char>)
    requires
        all.len() <= usize::MAX,
    ensures
        visible(all, active, filter).len() <= all.len(),
{
    law_filter_keeps_order(all, lowercase(filter));
}

/// Filtering anew keeps the screen well-formed where everything else is.
proof fn lemma_apply_filter(s: BrowseModel)
    requires
        s.downloads.wf(),
        s.popups.delete_prompt is Some ==> s.popups.delete_prompt->0.wf(),
        s.add.form is Some ==> s.add.form->0.form.wf(),
        s.status.spinner_frame < SPINNER_FRAMES,
        s.status.queue_backoff <= QUEUE_BACKOFF_MAX_SHIFT,
        s.add.results.len() == s.add.raw.len(),
        s.lists.all_series.len() <= usize::MAX,
        !s.filter.active ==> s.filter.input.value.len() == 0,
        s.filter.focused ==> s.filter.active,
    ensures
        s.apply_filter().wf(),
{
    lemma_visible_len(s.lists.all_series, s.filter.active, s.filter.input.value);
}

proof fn lemma_move_cursor(s: BrowseModel, step: Step)
    requires
        s.wf(),
    ensures
        s.move_cursor(step).wf(),
{
    lemma_visible_len(s.lists.all_series, s.filter.active, s.filter.input.value);
    match s.cursor_and_len() {
        Some((cursor, len)) => {
            if cursor < len {
                law_cursor_stays_in_the_list(step, cursor, len, s.page_jump());
            }
        },
        None => {},
    }
}

proof fn lemma_filter_key(s: BrowseModel, key: KeyEvent)
    requires
        s.wf(),
        s.filter.focused,
    ensures
        s.filter_key(key).wf(),
{
    match key.code {
        KeyCode::Esc => {
            lemma_apply_filter(
                BrowseModel {
                    filter: FilterModel {
                        focused: false,
                        input: s.filter.input.cleared(),
                        active: false,
                        ..s.filter
                    },
                    ..s
                },
            );
        },
        KeyCode::Enter
        | KeyCode::Tab
        | KeyCode::BackTab
        | KeyCode::Up
        | KeyCode::Down => {},
        _ => {
            if s.filter.input.edits(key) {
                lemma_apply_filter(
                    BrowseModel {
                        filter: FilterModel { input: s.filter.input.typed(key), ..s.filter },
                        ..s
                    },
                );
            }
        },
    }
}

proof fn lemma_sort_menu_key(s: BrowseModel, code: KeyCode)
    requires
        s.wf(),
        s.popups.sort_menu is Some,
    ensures
        s.sort_menu_key(code).wf(),
{
    lemma_visible_len(s.lists.all_series, s.filter.active, s.filter.input.value);
}

proof fn lemma_pop_level(s: BrowseModel)
    requires
        s.wf(),
    ensures
        s.pop_level().wf(),
{
}

proof fn lemma_back_key(s: BrowseModel, code: KeyCode)
    requires
        s.wf(),
        !s.filter.focused,
    ensures
        s.back_key(code).wf(),
{
    lemma_pop_level(s);
    if s.level is SeriesList && s.filter.active && code == KeyCode::Esc {
        lemma_apply_filter(
            BrowseModel {
                filter: FilterModel {
                    input: s.filter.input.cleared(),
                    active: false,
                    ..s.filter
                },
                ..s.pop_level()
            },
        );
    }
}

proof fn lemma_requests(s: BrowseModel, id: i64, season_number: i32, term: Seq<char>)
    requires
        s.wf(),
    ensures
        s.idle().wf(),
        s.fetch_series().wf(),
        s.fetch_episodes(id, season_number).wf(),
        s.fetch_queue().wf(),
        s.fetch_releases(id).wf(),
        s.fetch_add_options().wf(),
        s.fetch_lookup(term).wf(),
{
}

proof fn lemma_reload(s: BrowseModel, id: i64, season_number: i32)
    requires
        s.wf(),
    ensures
        s.fetch_series().fetch_queue().wf(),
        s.fetch_episodes(id, season_number).fetch_queue().wf(),
{
    lemma_requests(s, id, season_number, Seq::empty());
    lemma_requests(s.fetch_series(), 0, 0, Seq::empty());
    lemma_requests(s.fetch_episodes(id, season_number), 0, 0, Seq::empty());
}

proof fn lemma_open_selected(s: BrowseModel)
    requires
        s.wf(),
    ensures
        s.open_selected().wf(),
{
    match s.level {
        Level::SeriesList => match s.selected_series() {
            Some(series) => {
                lemma_requests(s.open_series(series), 0, 0, Seq::empty());
            },
            None => {},
        },
        Level::Show { series } => {
            assert forall|season: Season| #[trigger] s.open_season(series, season).wf() by {
                lemma_reload(
                    BrowseModel {
                        lists: ListsModel {
                            episode_cursor: 0,
                            episodes: Seq::empty(),
                            ..s.lists
                        },
                        ..s
                    },
                    series.id,
                    season.season_number,
                );
            }
        },
        _ => {},
    }
}

proof fn lemma_enter_add(s: BrowseModel)
    requires
        s.wf(),
    ensures
        s.enter_add().wf(),
{
}

proof fn lemma_refresh(s: BrowseModel)
    requires
        s.wf(),
    ensures
        s.refresh().wf(),
{
    lemma_reload(s, 0, 0);
    lemma_requests(s, 0, 0, Seq::empty());
    lemma_requests(s.fetch_add_options(), 0, 0, s.add.search.value);
    match s.level {
        Level::Search { episode, .. } => {
            lemma_requests(s, episode.id, 0, Seq::empty());
        },
        Level::Episodes { series, season } | Level::EpisodeDetail { series, season, .. } => {
            lemma_reload(s, series.id, season.season_number);
        },
        _ => {},
    }
}

proof fn lemma_x_and_z(s: BrowseModel)
    requires
        s.wf(),
    ensures
        s.x_key().wf(),
        s.z_key().wf(),
{
}

proof fn lemma_open_downloads(s: BrowseModel)
    requires
        s.wf(),
    ensures
        s.open_downloads().wf(),
{
    lemma_requests(
        BrowseModel { level: Level::Downloads, downloads: DownloadsModel::initial(), ..s },
        0,
        0,
        Seq::empty(),
    );
}

proof fn lemma_flows(s: BrowseModel)
    requires
        s.wf(),
    ensures
        s.start_edit_flow().wf(),
        s.toggle_monitored().wf(),
{
}

#[verifier::spinoff_prover]
proof fn lemma_level_key(s: BrowseModel, code: KeyCode)
    requires
        s.wf(),
        !s.filter.focused,
    ensures
        s.level_key(code).wf(),
{
    match code {
        KeyCode::Up => {
            lemma_move_cursor(s, Step::Up);
        },
        KeyCode::Down => {
            lemma_move_cursor(s, Step::Down);
        },
        KeyCode::Char('d') => {
            lemma_open_downloads(s);
        },
        KeyCode::PageUp | KeyCode::Left => {
            lemma_move_cursor(s, Step::PageUp);
        },
        KeyCode::PageDown | KeyCode::Right => {
            lemma_move_cursor(s, Step::PageDown);
        },
        KeyCode::Home | KeyCode::Char('g') => {
            lemma_move_cursor(s, Step::Home);
        },
        KeyCode::End | KeyCode::Char('G') => {
            lemma_move_cursor(s, Step::End);
        },
        KeyCode::Esc | KeyCode::Backspace => {
            lemma_back_key(s, code);
        },
        KeyCode::Char('a') => {
            lemma_enter_add(s);
        },
        KeyCode::Enter | KeyCode::Char(' ') => {
            lemma_open_selected(s);
        },
        KeyCode::Char('x') | KeyCode::Char('z') => {
            lemma_x_and_z(s);
        },
        KeyCode::Char('m') | KeyCode::Char('o') => {
            lemma_flows(s);
        },
        KeyCode::Char('r') => {
            lemma_refresh(s);
        },
        _ => {},
    }
}

proof fn lemma_info_key(s: BrowseModel, code: KeyCode)
    requires
        s.wf(),
        s.level is EpisodeDetail,
    ensures
        s.info_key(code).wf(),
{
    lemma_pop_level(s);
    lemma_refresh(s);
    lemma_flows(s);
}

proof fn lemma_form_key(s: BrowseModel, key: KeyEvent)
    requires
        s.wf(),
        s.add.form is Some,
    ensures
        s.form_key(key).wf(),
{
    let before = s.add.form->0.form;
    let after = before.after_key(key);
    law_focus_stays_in_the_form(before, key);
    lemma_field_at_in_range(after.fields, MOVE_FILES);
    lemma_field_at_in_range(after.reset(MOVE_FILES).fields, MOVE_FILES);
}

proof fn lemma_search_menu_key(s: BrowseModel, code: KeyCode)
    requires
        s.wf(),
        s.popups.search_menu is Some,
    ensures
        s.search_menu_key(code).wf(),
{
}

proof fn lemma_add_search_key(s: BrowseModel, key: KeyEvent)
    requires
        s.wf(),
    ensures
        s.add_search_key(key).wf(),
{
}

proof fn lemma_prompt_keys(s: BrowseModel, code: KeyCode)
    requires
        s.wf(),
    ensures
        s.downloads.prompt is Some ==> s.downloads_prompt_key(code).wf(),
        s.popups.confirm is Some ==> s.confirm_key(code).wf(),
        s.popups.delete_prompt is Some ==> s.delete_prompt_key(code).wf(),
        s.popups.rejections is Some ==> s.rejections_key(code).wf(),
{
}

/// Keys keep the screen well-formed: what is visible is what the filter leaves
/// of the list, with the cursor on one of its rows, and the lookup's lists are
/// aligned.
#[verifier::spinoff_prover]
pub proof fn law_keys_keep_the_screen_well_formed(s: BrowseModel, key: KeyEvent)
    requires
        s.wf(),
    ensures
        s.after_key(key).wf(),
{
    if s.filter.focused {
        lemma_filter_key(s, key);
    } else if s.add.search_focused {
        lemma_add_search_key(s, key);
    } else if key.is_modified_char() {
    } else if s.add.form is Some {
        lemma_form_key(s, key);
    } else if s.downloads.prompt is Some || s.popups.confirm is Some
        || s.popups.delete_prompt is Some {
        lemma_prompt_keys(s, key.code);
    } else if s.popups.sort_menu is Some {
        lemma_sort_menu_key(s, key.code);
    } else if s.popups.search_menu is Some {
        lemma_search_menu_key(s, key.code);
    } else if s.popups.rejections is Some {
        lemma_prompt_keys(s, key.code);
    } else if s.level is EpisodeDetail {
        lemma_info_key(s, key.code);
    } else {
        lemma_level_key(s, key.code);
    }
}

/// Ticks keep the screen well-formed, and so does showing or hiding the tab.
pub proof fn law_ticks_keep_the_screen_well_formed(s: BrowseModel, active: bool)
    requires
        s.wf(),
    ensures
        s.after_tick().wf(),
        s.with_active(active).wf(),
{
}

/// The series list keeps the screen well-formed.
pub proof fn law_series_keep_the_screen_well_formed(
    s: BrowseModel,
    gen: u64,
    series: Result<Seq<Arc<Series>>, Error>,
)
    requires
        s.wf(),
        series is Ok ==> series->Ok_0.len() <= usize::MAX,
    ensures
        s.after_series(gen, series).wf(),
{
    if series is Ok {
        let idle = s.idle();
        lemma_apply_filter(
            BrowseModel {
                level: s.level_synced(series->Ok_0),
                lists: ListsModel { all_series: series->Ok_0, ..idle.lists },
                ..idle
            },
        );
    }
}

/// Sorting keeps the screen well-formed.
pub proof fn law_sorting_keeps_the_screen_well_formed(s: BrowseModel, order: Seq<usize>)
    requires
        s.wf(),
        order.len() <= usize::MAX,
    ensures
        s.sorted(order).wf(),
{
    if is_order(order, s.lists.all_series.len()) {
        lemma_apply_filter(
            BrowseModel {
                lists: ListsModel { all_series: reordered(s.lists.all_series, order), ..s.lists },
                ..s
            },
        );
    }
}

/// Lookups keep the screen well-formed.
pub proof fn law_lookups_keep_the_screen_well_formed(
    s: BrowseModel,
    gen: u64,
    lookup: Result<Seq<LookupEntry>, Error>,
)
    requires
        s.wf(),
    ensures
        s.after_lookup(gen, lookup).wf(),
{
    match lookup {
        Ok(entries) => {
            law_lookup_lists_are_aligned(entries);
        },
        Err(_) => {},
    }
}

/// The answers that only fill lists keep the screen well-formed.
pub proof fn law_quiet_answers_keep_the_screen_well_formed(
    s: BrowseModel,
    gen: u64,
    episodes: Result<Seq<Arc<Episode>>, Error>,
    queue: Result<Seq<QueueItem>, Error>,
    releases: Result<Seq<Release>, Error>,
    history: Result<Seq<HistoryRecord>, Error>,
    options: Result<(Seq<RootFolder>, Seq<QualityProfile>), Error>,
    search: Result<Command, Error>,
)
    requires
        s.wf(),
    ensures
        s.after_episodes(gen, episodes).wf(),
        s.after_queue(gen, queue).wf(),
        s.after_releases(gen, releases).wf(),
        s.after_history(gen, history).wf(),
        s.after_add_options(gen, options).wf(),
        s.after_search_started(gen, search).wf(),
        s.after_search_polled(gen, search).wf(),
{
}

proof fn lemma_pop_to_episodes(s: BrowseModel)
    requires
        s.wf(),
    ensures
        s.pop_to_episodes().wf(),
{
    match s.level {
        Level::EpisodeDetail { series, season, .. } | Level::Search { series, season, .. } => {
            lemma_reload(s, series.id, season.season_number);
        },
        _ => {},
    }
}

proof fn lemma_success(s: BrowseModel, kind: CommandKind)
    requires
        s.wf(),
    ensures
        s.after_success(kind).wf(),
{
    match kind {
        CommandKind::AutoSearch => {
            lemma_requests(
                s.noticed("search started; grabbed downloads appear in the queue"),
                0,
                0,
                Seq::empty(),
            );
        },
        CommandKind::Grab | CommandKind::DeleteFile => {
            lemma_pop_to_episodes(s);
        },
        CommandKind::DeleteSeries(deleted_id) => {
            assert(s.leave_deleted(deleted_id).wf());
            lemma_reload(s.leave_deleted(deleted_id), 0, 0);
        },
        CommandKind::DeleteQueue => {
            lemma_requests(
                BrowseModel {
                    downloads: DownloadsModel { marks: Set::empty(), ..s.downloads },
                    ..s
                },
                0,
                0,
                Seq::empty(),
            );
        },
        CommandKind::SetMonitored | CommandKind::SetOptions => {
            lemma_refresh(s);
        },
    }
}

/// Finished mutations keep the screen well-formed.
pub proof fn law_mutations_keep_the_screen_well_formed(
    s: BrowseModel,
    gen: u64,
    kind: CommandKind,
    done: Result<(), Error>,
)
    requires
        s.wf(),
    ensures
        s.after_command(gen, kind, done).wf(),
{
    lemma_requests(s, 0, 0, Seq::empty());
    lemma_success(s.idle(), kind);
}

/// Finished adds keep the screen well-formed.
pub proof fn law_adds_keep_the_screen_well_formed(
    s: BrowseModel,
    gen: u64,
    added: Result<Arc<Series>, Error>,
)
    requires
        s.wf(),
    ensures
        s.after_added(gen, added).wf(),
{
}

/// Sorting keeps the list's series, each as often as it was there, and whatever
/// names them otherwise than once each is refused.
pub proof fn law_sorting_keeps_the_series(s: BrowseModel, order: Seq<usize>)
    ensures
        s.sorted(order).lists.all_series.to_multiset() == s.lists.all_series.to_multiset(),
        !is_order(order, s.lists.all_series.len()) ==> s.sorted(order) == s,
{
    if is_order(order, s.lists.all_series.len()) {
        law_orders_keep_the_entries(s.lists.all_series, order);
    }
}

} // verus!
