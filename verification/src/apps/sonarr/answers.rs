//! What the Sonarr browse screen makes of the server's answers and of the
//! passing of time.

use serde_json::Value;
use std::sync::Arc;
use vstd::prelude::*;

use crate::apps::auto_search::{
    law_a_round_ticks_every_monitor, law_ticks_take_a_search_to_its_end, ticked, MonitorModel,
    Outcome, Phase,
};
use crate::apps::sonarr::browse::{label_text, Level, LookupEntry};
use crate::apps::sonarr::msg::{CommandKind, RequestModel};
use crate::apps::sonarr::navigation::with_queue_poll;
use crate::apps::sonarr::state::{
    entry_objects, entry_series, episode_with_id, in_order, new_counts, new_items, queued_for,
    readable, series_with_id, BrowseModel,
};
use crate::arr::models::{Command, QualityProfile, QueueItem, RootFolder};
use crate::arr::Error;
use crate::sonarr::{Episode, Series};
use crate::text::decimal_int;

verus! {

// Counting what a search has brought.

/// The queue positions that hold a new download of a monitor's own series.
pub open spec fn own_new_downloads(queue: Seq<QueueItem>, monitor: MonitorModel) -> Set<int> {
    Set::new(
        |i: int|
            0 <= i < queue.len() && queue[i].series_id == Some(monitor.target_id)
                && !monitor.baseline.contains(queue[i].id),
    )
}

/// A search is credited with the downloads of its own series that were not in
/// the queue before, one for each, and with nothing else.
pub proof fn law_only_own_new_downloads_count(queue: Seq<QueueItem>, monitor: MonitorModel)
    ensures
        own_new_downloads(queue, monitor).finite(),
        new_items(queue, monitor) == own_new_downloads(queue, monitor).len(),
        new_items(queue, monitor) <= queue.len(),
    decreases queue.len(),
{
    let own = own_new_downloads(queue, monitor);
    if queue.len() == 0 {
        assert(own =~= Set::empty());
    } else {
        let rest = queue.drop_last();
        let last = queue.len() - 1;
        law_only_own_new_downloads_count(rest, monitor);
        let before = own_new_downloads(rest, monitor);
        assert forall|i: int| 0 <= i < rest.len() implies rest[i] == #[trigger] queue[i] by {}
        if queue[last].series_id == Some(monitor.target_id) && !monitor.baseline.contains(
            queue[last].id,
        ) {
            assert(own =~= before.insert(last));
        } else {
            assert(own =~= before);
        }
    }
}

/// After a tick, a completed search has ended as grabbed exactly if downloads
/// of its own series are new in the queue, with their number; without any it
/// goes on until its six seconds are over and ends as fruitless then. Another
/// series' downloads change nothing.
pub proof fn law_a_completed_search_is_judged_by_its_own_series(s: BrowseModel, at: int)
    requires
        0 <= at < s.monitors.len(),
        s.monitors[at].phase is Confirming,
        s.monitors[at].age_ticks < u32::MAX,
        s.monitors[at].phase_ticks < u32::MAX,
        s.lists.queue.len() <= usize::MAX,
        forall|i: int, j: int|
            0 <= i < j < s.monitors.len() ==> (#[trigger] s.monitors[i]).generation != (
            #[trigger] s.monitors[j]).generation,
    ensures
        ({
            let m = s.monitors[at];
            let own = own_new_downloads(s.lists.queue, m);
            let expected = if own.len() > 0 {
                Phase::Done(Outcome::Grabbed(own.len() as usize))
            } else if m.phase_ticks + 1 >= 24 {
                Phase::Done(Outcome::NothingFound)
            } else {
                Phase::Confirming
            };
            let t = s.after_tick();
            &&& exists|n: MonitorModel| #[trigger]
                t.monitors.contains(n) && n.generation == m.generation
            &&& forall|n: MonitorModel| #[trigger]
                t.monitors.contains(n) && n.generation == m.generation ==> n.phase == expected
                    && n.title == m.title && n.target_id == m.target_id
            &&& (forall|i: int|
                0 <= i < s.lists.queue.len() ==> (#[trigger] s.lists.queue[i]).series_id != Some(
                    m.target_id,
                )) ==> own.len() == 0
        }),
{
    let m = s.monitors[at];
    let queue = s.lists.queue;
    let counts = new_counts(queue, s.monitors);
    let ticks = ticked(s.monitors, counts);
    let own = own_new_downloads(queue, m);
    law_only_own_new_downloads_count(queue, m);
    law_a_round_ticks_every_monitor(s.monitors, counts);
    assert(counts[at] == own.len());
    law_ticks_take_a_search_to_its_end(m, counts[at]);
    let t = s.after_tick();
    assert(ticks[at] == m.after_tick(counts[at]));
    assert(t.monitors.contains(ticks[at].0));
    assert forall|n: MonitorModel| #[trigger]
        t.monitors.contains(n) && n.generation == m.generation implies n == ticks[at].0 by {
        let i = choose|i: int| 0 <= i < s.monitors.len() && (#[trigger] ticks[i]).0 == n;
        assert(ticks[i] == s.monitors[i].after_tick(counts[i]));
        assert(ticks[i].0.generation == s.monitors[i].generation);
        if i < at {
            assert(s.monitors[i].generation != s.monitors[at].generation);
        } else if at < i {
            assert(s.monitors[at].generation != s.monitors[i].generation);
        }
    }
    if forall|i: int|
        0 <= i < queue.len() ==> (#[trigger] queue[i]).series_id != Some(m.target_id) {
        assert(own =~= Set::empty());
    }
}

/// A search starts with the downloads that its series already has: exactly the
/// queued ids of that series, so that none of them is taken for its result.
pub proof fn law_earlier_downloads_are_the_baseline(queue: Seq<QueueItem>, series_id: i64, id: i64)
    ensures
        queued_for(queue, series_id).contains(id) <==> exists|i: int|
            0 <= i < queue.len() && (#[trigger] queue[i]).id == id && queue[i].series_id == Some(
                series_id,
            ),
    decreases queue.len(),
{
    if queue.len() > 0 {
        let rest = queue.drop_last();
        law_earlier_downloads_are_the_baseline(rest, series_id, id);
        let last = queue.len() - 1;
        if queued_for(rest, series_id).contains(id) {
            let i = choose|i: int|
                0 <= i < rest.len() && (#[trigger] rest[i]).id == id && rest[i].series_id == Some(
                    series_id,
                );
            assert(queue[i] == rest[i]);
        }
        if queue[last].series_id == Some(series_id) && queue[last].id == id {
            assert(queue[last].id == id);
        }
        if exists|i: int|
            0 <= i < queue.len() && (#[trigger] queue[i]).id == id && queue[i].series_id == Some(
                series_id,
            ) {
            let i = choose|i: int|
                0 <= i < queue.len() && (#[trigger] queue[i]).id == id && queue[i].series_id == Some(
                    series_id,
                );
            if i < last {
                assert(rest[i] == queue[i]);
            }
        }
    }
}

/// Right after a search was started nothing in the queue counts for it.
pub proof fn law_a_fresh_search_has_brought_nothing(s: BrowseModel, series_id: i64, title: Seq<char>)
    ensures
        ({
            let t = s.start_auto_search(series_id, title);
            let m = t.monitors.last();
            &&& t.monitors.len() == s.monitors.len() + 1
            &&& t.monitors.drop_last() == s.monitors
            &&& m.target_id == series_id
            &&& m.title == title
            &&& m.phase is Starting
            &&& m.command_id is None
            &&& m.age_ticks == 0
            &&& t.outbox == s.outbox.push(
                RequestModel::AutoSearch { generation: m.generation, series_id },
            )
            &&& new_items(s.lists.queue, m) == 0
        }),
{
    let t = s.start_auto_search(series_id, title);
    let m = t.monitors.last();
    assert(t.monitors.drop_last() =~= s.monitors);
    law_only_own_new_downloads_count(s.lists.queue, m);
    let own = own_new_downloads(s.lists.queue, m);
    assert forall|i: int| !own.contains(i) by {
        if own.contains(i) {
            law_earlier_downloads_are_the_baseline(s.lists.queue, series_id, s.lists.queue[i].id);
            assert(s.lists.queue[i].id == s.lists.queue[i].id);
        }
    }
    assert(own =~= Set::empty());
}

// Answers.

/// The list that arrives is the list that is kept, in the order that is asked
/// for next; an open page goes over to the list's own copy of its series, and
/// stays as it is where the list has none.
pub proof fn law_the_fetched_series_are_shown(s: BrowseModel, list: Seq<Arc<Series>>)
    requires
        !(s.level is Add),
    ensures
        ({
            let t = s.after_series(s.gens.fetch, Ok(list));
            let copied = |now: Arc<Series>, before: Arc<Series>|
                now.id == before.id && (now == before || list.contains(now)) && ((exists|i: int|
                    0 <= i < list.len() && (#[trigger] list[i]).id == before.id) ==> list.contains(
                    now,
                ));
            &&& t.lists.all_series == list
            &&& t.outbox == s.outbox.push(RequestModel::Sort { sort: s.sort.current })
            &&& !t.status.loading
            &&& t.status.error == s.status.error
            &&& t.lists.queue == s.lists.queue
            &&& t.lists.episodes == s.lists.episodes
            &&& match s.level {
                Level::Show { series } => t.level is Show && copied(t.level->Show_series, series),
                Level::Episodes { series, season } => t.level is Episodes && copied(
                    t.level->Episodes_series,
                    series,
                ) && t.level->Episodes_season == season,
                Level::EpisodeDetail { series, season, episode } => t.level is EpisodeDetail
                    && copied(t.level->EpisodeDetail_series, series)
                    && t.level->EpisodeDetail_season == season && t.level->EpisodeDetail_episode
                    == episode,
                Level::Search { series, season, episode } => t.level is Search && copied(
                    t.level->Search_series,
                    series,
                ) && t.level->Search_season == season && t.level->Search_episode == episode,
                _ => t.level == s.level,
            }
        }),
{
    match s.level {
        Level::Show { series }
        | Level::Episodes { series, .. }
        | Level::EpisodeDetail { series, .. }
        | Level::Search { series, .. } => {
            law_series_are_found_by_id(list, series.id);
        },
        _ => {},
    }
}

/// The episodes that arrive are those that are shown, by number; an open page
/// goes over to the list's own copy of its episode.
pub proof fn law_the_fetched_episodes_are_shown(s: BrowseModel, list: Seq<Arc<Episode>>)
    ensures
        ({
            let t = s.after_episodes(s.gens.fetch, Ok(list));
            &&& t.lists.episodes == in_order(list)
            &&& !t.status.loading
            &&& t.outbox == s.outbox
            &&& t.lists.all_series == s.lists.all_series
            &&& t.lists.queue == s.lists.queue
            &&& t.lists.episode_cursor == if s.lists.episode_cursor < in_order(list).len() {
                s.lists.episode_cursor
            } else {
                0
            }
            &&& !(s.level is EpisodeDetail) ==> t.level == s.level
            &&& s.level matches Level::EpisodeDetail { series, season, episode }
                ==> t.level matches Level::EpisodeDetail {
                series: same_series,
                season: same_season,
                episode: now,
            } && same_series == series && same_season == season && now.id == episode.id
        }),
{
    if s.level is EpisodeDetail {
        lemma_episode_is_found_by_id(in_order(list), s.level->EpisodeDetail_episode.id);
    }
}

proof fn lemma_episode_is_found_by_id(list: Seq<Arc<Episode>>, id: i64)
    ensures
        episode_with_id(list, id) matches Some(episode) ==> episode.id == id,
    decreases list.len(),
{
    if list.len() > 0 && list[0].id != id {
        lemma_episode_is_found_by_id(list.drop_first(), id);
    }
}

/// A series is found by its id wherever it is in the list, and the first one is
/// taken.
pub proof fn law_series_are_found_by_id(list: Seq<Arc<Series>>, id: i64)
    ensures
        match series_with_id(list, id) {
            Some(series) => series.id == id && list.contains(series) && exists|i: int|
                0 <= i < list.len() && #[trigger] list[i] == series && forall|j: int|
                    0 <= j < i ==> (#[trigger] list[j]).id != id,
            None => forall|i: int| 0 <= i < list.len() ==> (#[trigger] list[i]).id != id,
        },
    decreases list.len(),
{
    if list.len() > 0 {
        let rest = list.drop_first();
        if list[0].id == id {
            assert(list.contains(list[0]));
        } else {
            law_series_are_found_by_id(rest, id);
            assert forall|i: int| 0 < i < list.len() implies rest[i - 1] == #[trigger] list[i] by {}
            match series_with_id(rest, id) {
                Some(series) => {
                    let i = choose|i: int|
                        0 <= i < rest.len() && #[trigger] rest[i] == series && forall|j: int|
                            0 <= j < i ==> (#[trigger] rest[j]).id != id;
                    assert(list[i + 1] == series);
                    assert forall|j: int| 0 <= j < i + 1 implies (#[trigger] list[j]).id
                        != id by {
                        if j > 0 {
                            assert(rest[j - 1] == list[j]);
                        }
                    }
                },
                None => {
                    assert forall|i: int| 0 <= i < list.len() implies (#[trigger] list[i]).id
                        != id by {
                        if i > 0 {
                            assert(rest[i - 1] == list[i]);
                        }
                    }
                },
            }
        }
    }
}

/// The queue that arrives is the one that is shown, and marks stay exactly on
/// what is still in it.
pub proof fn law_the_fetched_queue_is_shown(s: BrowseModel, queue: Seq<QueueItem>, id: i64)
    ensures
        ({
            let t = s.after_queue(s.gens.queue, Ok(queue));
            &&& t.lists.queue == queue
            &&& !t.status.queue_loading
            &&& t.status.loading == s.status.loading
            &&& t.level == s.level
            &&& t.lists.all_series == s.lists.all_series
            &&& t.status.queue_backoff == 0
            &&& t.outbox == s.outbox
            &&& t.downloads.cursor == s.downloads.cursor
            &&& t.downloads.marks.contains(id) <==> s.downloads.marks.contains(id) && exists|i: int|
                0 <= i < queue.len() && (#[trigger] queue[i]).id == id
        }),
{
    let ids = crate::apps::downloads::queue_ids(queue);
    if ids.contains(id) {
        let i = choose|i: int| 0 <= i < ids.len() && ids[i] == id;
        assert(queue[i].id == id);
    }
    if exists|i: int| 0 <= i < queue.len() && (#[trigger] queue[i]).id == id {
        let i = choose|i: int| 0 <= i < queue.len() && (#[trigger] queue[i]).id == id;
        assert(ids[i] == id);
    }
}

/// What fails is told in the server's words, and leaves the lists as they were;
/// a rejected key is not told here.
pub proof fn law_failures_are_told(s: BrowseModel, err: Error, kind: CommandKind)
    requires
        !(err is Unauthorized),
        !(s.level is Add),
    ensures
        ({
            let t = s.after_series(s.gens.fetch, Err(err));
            t.status.error == Some(err.text()) && t.lists == s.lists && !t.status.loading
                && t.outbox == s.outbox && t.level == s.level
        }),
        ({
            let t = s.after_releases(s.gens.fetch, Err(err));
            t.status.error == Some(err.text()) && t.lists == s.lists && !t.status.loading
                && t.outbox == s.outbox && t.level == s.level
        }),
        ({
            let t = s.after_command(s.gens.fetch, kind, Err(err));
            t.status.error == Some(err.text()) && t.lists == s.lists && !t.status.loading
                && t.outbox == s.outbox && t.level == s.level
        }),
        ({
            let t = s.after_lookup(s.gens.add_lookup, Err(err));
            t.status.error == Some(err.text()) && t.add.results == s.add.results
                && !t.status.loading && t.outbox == s.outbox
        }),
        ({
            let t = s.after_added(s.gens.add, Err(err));
            t.status.error == Some(err.text()) && !t.add.submitting && !t.add.pending_search
                && !t.status.loading && t.outbox == s.outbox && t.level == s.level && t.monitors
                == s.monitors
        }),
{
}

/// What a mutation that succeeded leads to: a grab or a deleted file back to the
/// season with its episodes fetched anew, a deletion off the deleted series'
/// pages with the list fetched anew, a removal with nothing marked, and each
/// with the queue refreshed unless that is under way. The user is told what
/// happened.
pub proof fn law_finished_mutations_refresh_what_they_changed(s: BrowseModel, id: i64)
    ensures
        ({
            let t = s.after_command(s.gens.fetch, CommandKind::AutoSearch, Ok(()));
            &&& t.status.notice == Some("search started; grabbed downloads appear in the queue")
            &&& t.level == s.level
            &&& t.lists == s.lists
            &&& t.outbox == with_queue_poll(s.outbox, s, t)
        }),
        ({
            let t = s.after_command(s.gens.fetch, CommandKind::Grab, Ok(()));
            &&& t.status.notice == Some("release sent to the download client")
            &&& back_in_the_season(t, s)
        }),
        ({
            let t = s.after_command(s.gens.fetch, CommandKind::DeleteFile, Ok(()));
            &&& t.status.notice == Some("episode file deleted")
            &&& back_in_the_season(t, s)
        }),
        ({
            let t = s.after_command(s.gens.fetch, CommandKind::DeleteQueue, Ok(()));
            &&& t.status.notice == Some("removed from queue")
            &&& t.downloads.marks == Set::<i64>::empty()
            &&& t.downloads.cursor == s.downloads.cursor
            &&& t.level == s.level
            &&& t.outbox == with_queue_poll(s.outbox, s, t)
        }),
        ({
            let t = s.after_command(s.gens.fetch, CommandKind::DeleteSeries(id), Ok(()));
            &&& t.status.notice == Some("series deleted")
            &&& t.outbox == with_queue_poll(
                s.outbox.push(RequestModel::Series { fetch_gen: t.gens.fetch }),
                s,
                t,
            )
            &&& match s.level {
                Level::Show { series }
                | Level::Episodes { series, .. }
                | Level::EpisodeDetail { series, .. }
                | Level::Search { series, .. } => if series.id == id {
                    t.level is SeriesList
                } else {
                    t.level == s.level
                },
                _ => t.level == s.level,
            }
        }),
{
}

/// The season of the open page is shown again, with its episodes asked for.
pub open spec fn back_in_the_season(t: BrowseModel, s: BrowseModel) -> bool {
    match s.level {
        Level::Search { series, season, .. } | Level::EpisodeDetail { series, season, .. } => {
            &&& t.level == (Level::Episodes { series, season })
            &&& t.outbox == with_queue_poll(
                s.outbox.push(
                    RequestModel::Episodes {
                        fetch_gen: t.gens.fetch,
                        series_id: series.id,
                        season_number: season.season_number,
                    },
                ),
                s,
                t,
            )
        },
        _ => t.level == s.level && t.outbox == s.outbox,
    }
}

/// A change of monitoring or of options is shown by fetching anew what the page
/// shows.
pub proof fn law_changes_are_fetched_anew(s: BrowseModel)
    requires
        s.level is SeriesList || s.level is Show || s.level is Episodes,
    ensures
        ({
            let t = s.after_command(s.gens.fetch, CommandKind::SetMonitored, Ok(()));
            let u = s.after_command(s.gens.fetch, CommandKind::SetOptions, Ok(()));
            &&& t.level == s.level
            &&& t.lists == s.lists
            &&& u.outbox == t.outbox
            &&& u.status.notice == Some("options updated")
            &&& match s.level {
                Level::SeriesList => t.outbox == s.outbox.push(
                    RequestModel::Series { fetch_gen: t.gens.fetch },
                ),
                Level::Show { .. } => t.outbox == with_queue_poll(
                    s.outbox.push(RequestModel::Series { fetch_gen: t.gens.fetch }),
                    s,
                    t,
                ),
                Level::Episodes { series, season } => t.outbox == with_queue_poll(
                    s.outbox.push(
                        RequestModel::Episodes {
                            fetch_gen: t.gens.fetch,
                            series_id: series.id,
                            season_number: season.season_number,
                        },
                    ),
                    s,
                    t,
                ),
                _ => true,
            }
        }),
{
}

/// What a lookup finds is listed in the order it was found, each series with the
/// object it was read from; only what could not be read is left out.
pub proof fn law_lookup_results_are_listed_in_order(s: BrowseModel, entries: Seq<LookupEntry>)
    ensures
        ({
            let t = s.after_lookup(s.gens.add_lookup, Ok(entries));
            &&& t.add.cursor == 0
            &&& !t.status.loading
            &&& t.outbox == s.outbox
            &&& t.level == s.level
            &&& t.add.root_folders == s.add.root_folders
            &&& exists|places: Seq<int>|
                is_reading(t.add.results, t.add.raw, entries, places)
        }),
{
    let places = lemma_reading(entries);
    let t = s.after_lookup(s.gens.add_lookup, Ok(entries));
    assert(is_reading(t.add.results, t.add.raw, entries, places));
}

/// The series and objects that lie at the places of some entries, in order,
/// those being all the places of readable entries.
pub open spec fn is_reading(
    shown: Seq<Arc<Series>>,
    objects: Seq<Value>,
    entries: Seq<LookupEntry>,
    places: Seq<int>,
) -> bool {
    &&& shown.len() == places.len()
    &&& objects.len() == places.len()
    &&& forall|k: int|
        0 <= k < places.len() ==> 0 <= #[trigger] places[k] < entries.len()
            && entries[places[k]].series == Some(shown[k]) && entries[places[k]].raw == objects[k]
    &&& forall|j: int, k: int|
        0 <= j < k < places.len() ==> #[trigger] places[j] < #[trigger] places[k]
    &&& forall|i: int|
        0 <= i < entries.len() && (#[trigger] entries[i]).series is Some ==> places.contains(i)
}

proof fn lemma_reading(entries: Seq<LookupEntry>) -> (places: Seq<int>)
    ensures
        places.len() == readable(entries).len(),
        is_reading(entry_series(entries), entry_objects(entries), entries, places),
    decreases entries.len(),
{
    if entries.len() == 0 {
        Seq::empty()
    } else {
        let rest = entries.drop_last();
        let before = lemma_reading(rest);
        let last = entries.len() - 1;
        let places = if readable(entries).len() > before.len() {
            before.push(last)
        } else {
            before
        };
        let (shown, objects) = (entry_series(entries), entry_objects(entries));
        assert forall|i: int| 0 <= i < rest.len() implies rest[i] == #[trigger] entries[i] by {}
        assert forall|k: int| 0 <= k < places.len() implies 0 <= #[trigger] places[k]
            < entries.len() && entries[places[k]].series == Some(shown[k])
            && entries[places[k]].raw == objects[k] by {
            if k < before.len() {
                assert(places[k] == before[k]);
                assert(rest[before[k]] == entries[before[k]]);
                assert(readable(entries)[k] == readable(rest)[k]);
                assert(entry_series(rest)[k] == shown[k]);
                assert(entry_objects(rest)[k] == objects[k]);
            } else {
                assert(readable(entries)[k] == entries[last]);
            }
        }
        assert forall|i: int| 0 <= i < entries.len() && (
        #[trigger] entries[i]).series is Some implies places.contains(i) by {
            if i < rest.len() {
                assert(rest[i] == entries[i]);
                let k = choose|k: int| 0 <= k < before.len() && before[k] == i;
                assert(places[k] == i);
            } else {
                assert(places[places.len() - 1] == i);
            }
        }
        places
    }
}

/// The folders and profiles that arrive are those that are offered.
pub proof fn law_the_fetched_options_are_offered(
    s: BrowseModel,
    folders: Seq<RootFolder>,
    profiles: Seq<QualityProfile>,
)
    ensures
        ({
            let t = s.after_add_options(s.gens.add_prereq, Ok((folders, profiles)));
            &&& t.add.root_folders == folders
            &&& t.add.quality_profiles == profiles
            &&& t.add.results == s.add.results
            &&& s.add.pending_edit is None ==> t.add.form == s.add.form
            &&& t.outbox == s.outbox
            &&& t.level == s.level
        }),
{
}

/// An added series' page is opened and the list fetched anew; its search is
/// started exactly if that was asked for, for that series and under its title.
pub proof fn law_an_added_series_is_opened_and_searched_for(s: BrowseModel, series: Arc<Series>)
    ensures
        ({
            let t = s.after_added(s.gens.add, Ok(series));
            &&& t.level == (Level::Show { series })
            &&& !t.add.submitting
            &&& !t.add.pending_search
            &&& t.add.results.len() == 0
            &&& t.add.raw.len() == 0
            &&& t.status.notice == Some("series added")
            &&& t.lists.all_series == s.lists.all_series
            &&& t.lists.season_cursor == 0
            &&& !s.add.pending_search ==> t.monitors == s.monitors && t.outbox == with_queue_poll(
                s.outbox.push(RequestModel::Series { fetch_gen: t.gens.fetch }),
                s,
                t,
            )
            &&& s.add.pending_search ==> {
                let m = t.monitors.last();
                &&& t.monitors == s.monitors.push(m)
                &&& m.target_id == series.id
                &&& m.title == label_text(*series)
                &&& m.phase is Starting
                &&& t.outbox == with_queue_poll(
                    s.outbox.push(
                        RequestModel::AutoSearch { generation: m.generation, series_id: series.id },
                    ).push(RequestModel::Series { fetch_gen: t.gens.fetch }),
                    s,
                    t,
                )
            }
        }),
{
}

/// A series is called by its title, with the year behind it where one is known.
pub proof fn law_series_are_called_by_title_and_year(series: Series)
    ensures
        series.title matches Some(title) ==> {
            &&& series.year is None ==> label_text(series) == title@
            &&& series.year matches Some(year) ==> label_text(series) == if year > 0 {
                title@ + " ("@ + decimal_int(year as int) + ")"@
            } else {
                title@
            }
        },
        series.title is None && series.year is None ==> label_text(series) == "series"@,
{
}

/// A command that was created or polled reaches its monitor and nothing else of
/// the screen; when a search has completed, the queue is refreshed to see what
/// came of it.
pub proof fn law_completed_searches_refresh_the_queue(
    s: BrowseModel,
    at: int,
    result: Result<Command, Error>,
)
    requires
        0 <= at < s.monitors.len(),
        forall|j: int|
            0 <= j < at ==> (#[trigger] s.monitors[j]).generation != s.monitors[at].generation,
    ensures
        ({
            let t = s.after_search_started(s.monitors[at].generation, result);
            &&& t.lists == s.lists
            &&& t.outbox == s.outbox
            &&& t.level == s.level
            &&& result matches Ok(command) ==> t.monitors.len() == s.monitors.len() && (command.id
                > 0 && s.monitors[at].phase is Starting ==> t.monitors[at].phase is Searching
                && t.monitors[at].command_id == Some(command.id))
        }),
        ({
            let t = s.after_search_polled(s.monitors[at].generation, result);
            let completed = s.monitors[at].phase is Searching && result is Ok
                && result->Ok_0.status is Some && result->Ok_0.status->0@ == "completed"@;
            &&& t.lists == s.lists
            &&& t.level == s.level
            &&& t.outbox == if completed {
                with_queue_poll(s.outbox, s, t)
            } else {
                s.outbox
            }
            &&& completed ==> t.monitors.len() == s.monitors.len() && t.monitors[at].phase
                is Confirming
        }),
{
    crate::apps::auto_search::law_answers_reach_their_monitor(
        s.monitors,
        at,
        s.monitors[at].generation,
        result,
    );
    if result is Ok {
        crate::apps::auto_search::law_a_started_search_follows_its_command(
            s.monitors[at],
            result->Ok_0.id,
        );
        crate::apps::auto_search::law_replies_decide_the_search(
            s.monitors[at],
            match result->Ok_0.status {
                Some(status) => Some(status@),
                None => None,
            },
        );
    }
}

/// While the tab is shown and inside a series, the queue is asked for as soon as
/// the interval since the last poll is over: forty ticks, doubled with each
/// poll that failed, up to eight times as many. No other tick asks for it while
/// no search is watched.
pub proof fn law_the_queue_is_polled_at_intervals(s: BrowseModel)
    requires
        s.monitors.len() == 0,
        s.status.tick_count < u32::MAX,
        s.status.last_poll_tick <= s.status.tick_count,
    ensures
        ({
            let t = s.after_tick();
            let interval = if s.status.queue_backoff == 0 {
                40
            } else if s.status.queue_backoff == 1 {
                80
            } else if s.status.queue_backoff == 2 {
                160
            } else {
                320int
            };
            let due = s.status.active && !(s.level is SeriesList) && s.status.tick_count + 1
                - s.status.last_poll_tick >= interval;
            &&& t.status.tick_count == s.status.tick_count + 1
            &&& t.lists == s.lists
            &&& t.level == s.level
            &&& t.monitors.len() == 0
            &&& t.status.last_poll_tick == if due {
                t.status.tick_count
            } else {
                s.status.last_poll_tick
            }
            &&& t.outbox == if due {
                with_queue_poll(s.outbox, s, t)
            } else {
                s.outbox
            }
        }),
{
    let counts = new_counts(s.lists.queue, s.monitors);
    let ticks = ticked(s.monitors, counts);
    assert(ticks =~= Seq::empty());
    let t = s.after_tick();
    assert(t.outbox =~= with_queue_poll(s.outbox, s, t) || t.outbox =~= s.outbox);
}

/// A poll that failed makes the next one wait longer, one that succeeded makes
/// it wait no longer than usual, and coming back to the tab does so too.
pub proof fn law_failed_polls_make_the_next_wait(s: BrowseModel, err: Error)
    requires
        s.status.queue_backoff <= 3,
        !(err is Unauthorized),
    ensures
        ({
            let t = s.after_queue(s.gens.queue, Err(err));
            &&& t.status.queue_backoff == if s.status.queue_backoff < 3 {
                s.status.queue_backoff + 1
            } else {
                3
            }
            &&& t.lists == s.lists
            &&& !t.status.queue_loading
            &&& t.status.error == s.status.error
        }),
        ({
            let t = s.with_active(true);
            &&& t.status.active
            &&& !s.status.active ==> t.status.queue_backoff == 0 && t.outbox == if s.level
                is SeriesList {
                s.outbox
            } else {
                with_queue_poll(s.outbox, s, t)
            }
            &&& s.status.active ==> t == s
            &&& t.lists == s.lists
        }),
        !s.with_active(false).status.active,
        s.with_active(false).outbox == s.outbox,
{
}

} // verus!
