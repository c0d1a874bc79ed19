//! What the keys of the Radarr browse screen are for: which request each of
//! them leads to, and about which movie, release, file or download.

use vstd::prelude::*;

use crate::app::{KeyCode, KeyEvent, KeyModifiers};
use crate::apps::radarr::browse::{
    first_1080, preferred_quality, AddFlow, AddStep, Level, MIN_AVAILABILITY,
};
use crate::apps::radarr::msg::{CallModel, CommandKind, RequestModel};
use crate::apps::radarr::state::{AddModel, BrowseModel};
use crate::arr::models::QualityProfile;
use crate::json::{json_bool, json_int, json_object_of, json_text, json_with_member};
use crate::text::{lowercase, occurs, occurs_at};

verus! {

/// The screen after a key with nothing held.
pub open spec fn press(s: BrowseModel, code: KeyCode) -> BrowseModel {
    s.after_key(
        KeyEvent {
            code,
            modifiers: KeyModifiers { shift: false, control: false, alt: false, other: false },
        },
    )
}

/// No field, wizard, prompt, popup or full-screen page takes the keys.
pub open spec fn unobstructed(s: BrowseModel) -> bool {
    &&& !s.filter.focused
    &&& !s.add.search_focused
    &&& s.add.flow is None
    &&& s.downloads.prompt is None
    &&& s.popups.confirm is None
    &&& s.popups.delete_prompt is None
    &&& s.popups.sort_menu is None
    &&& s.popups.search_menu is None
    &&& s.popups.rejections is None
    &&& !s.overview.fullscreen
}

/// The same except for the popups.
pub open spec fn same_but_popups(t: BrowseModel, s: BrowseModel) -> bool {
    &&& t.level == s.level
    &&& t.lists == s.lists
    &&& t.downloads == s.downloads
    &&& t.filter == s.filter
    &&& t.sort == s.sort
    &&& t.add == s.add
    &&& t.monitors == s.monitors
    &&& t.overview == s.overview
    &&& t.status == s.status
    &&& t.gens == s.gens
    &&& t.outbox == s.outbox
}

/// One mutation more was asked for, under the view's generation, and nothing
/// else happened but that the screen is busy and the popups are closed.
pub open spec fn commanded(
    t: BrowseModel,
    s: BrowseModel,
    kind: CommandKind,
    call: CallModel,
) -> bool {
    &&& t.outbox == s.outbox.push(RequestModel::Command { fetch_gen: s.gens.fetch, kind, call })
    &&& t.level == s.level
    &&& t.lists == s.lists
    &&& t.add == s.add
    &&& t.monitors == s.monitors
    &&& t.gens == s.gens
    &&& t.status.loading
    &&& t.popups.confirm is None
    &&& t.popups.delete_prompt is None
    &&& t.popups.search_menu is None
    &&& t.downloads.prompt is None
}

// The wizard.

/// The wizard with its cursor on an option.
pub open spec fn pointed(s: BrowseModel, option: usize) -> BrowseModel {
    BrowseModel {
        add: AddModel { flow: Some(AddFlow { cursor: option, ..s.add.flow->0 }), ..s.add },
        ..s
    }
}

/// The wizard's current step answered with an option.
pub open spec fn answered(s: BrowseModel, option: usize) -> BrowseModel {
    press(pointed(s, option), KeyCode::Enter)
}

/// Whatever is chosen in the five steps is what is sent: the lookup object of
/// the highlighted result with the profile, the root folder, the monitoring
/// and the availability under the cursor set on it, and a search afterwards
/// exactly if the last step says so. The server itself is never told to search.
#[verifier::rlimit(40)]
pub proof fn law_the_wizard_sends_what_was_chosen(
    s: BrowseModel,
    folder: usize,
    profile: usize,
    availability: usize,
    monitored: usize,
    search: usize,
)
    requires
        unobstructed(s),
        s.level is Add,
        !s.add.submitting,
        s.add.cursor < s.add.results.len(),
        s.add.results.len() == s.add.raw.len(),
        folder < s.add.root_folders.len(),
        profile < s.add.quality_profiles.len(),
        availability < 3,
        monitored < 2,
        search < 2,
    ensures
        ({
            let opened = press(s, KeyCode::Enter);
            let t = answered(
                answered(answered(answered(answered(opened, folder), profile), availability), monitored),
                search,
            );
            let raw = s.add.raw[s.add.cursor as int];
            let a = json_with_member(
                raw,
                "qualityProfileId"@,
                json_int(s.add.quality_profiles[profile as int].id as int),
            );
            let b = json_with_member(
                a,
                "rootFolderPath"@,
                json_text(s.add.root_folders[folder as int].path@),
            );
            let c = json_with_member(b, "monitored"@, json_bool(monitored == 0));
            let d = json_with_member(
                c,
                "minimumAvailability"@,
                json_text(
                    if availability == 0 {
                        "announced"@
                    } else if availability == 1 {
                        "inCinemas"@
                    } else {
                        "released"@
                    },
                ),
            );
            let body = json_with_member(
                d,
                "addOptions"@,
                json_object_of("searchForMovie"@, json_bool(false)),
            );
            &&& t.outbox == s.outbox.push(RequestModel::AddMovie { add_gen: t.gens.add, body })
            &&& t.gens.add != s.gens.counter
            &&& t.add.pending_search == (search == 0)
            &&& t.add.submitting
            &&& t.add.flow is None
            &&& t.level == s.level
            &&& t.add.root_folders == s.add.root_folders
            &&& t.add.quality_profiles == s.add.quality_profiles
        }),
{
    let opened = press(s, KeyCode::Enter);
    assert(opened.add.flow->0.step == AddStep::RootFolder);
    assert(opened.add.flow->0.result == s.add.cursor);
    let a = answered(opened, folder);
    assert(a.add.flow->0.step == AddStep::QualityProfile);
    assert(a.add.flow->0.root_folder == Some(s.add.root_folders[folder as int].path));
    let b = answered(a, profile);
    assert(b.add.flow->0.step == AddStep::MinAvailability);
    assert(b.add.flow->0.quality_profile_id == Some(s.add.quality_profiles[profile as int].id));
    let c = answered(b, availability);
    assert(c.add.flow->0.step == AddStep::Monitored);
    let d = answered(c, monitored);
    assert(d.add.flow->0.step == AddStep::Download);
    assert(d.add.flow->0.min_availability == availability);
    assert(MIN_AVAILABILITY@[0].1@ == "announced"@);
    assert(MIN_AVAILABILITY@[1].1@ == "inCinemas"@);
    assert(MIN_AVAILABILITY@[2].1@ == "released"@);
}

/// How many options there are to point at in a step.
pub open spec fn option_count(s: BrowseModel) -> int {
    match s.add.flow->0.step {
        AddStep::RootFolder => s.add.root_folders.len() as int,
        AddStep::QualityProfile => s.add.quality_profiles.len() as int,
        AddStep::MinAvailability => 3,
        AddStep::Monitored | AddStep::Download => 2,
    }
}

/// In the wizard the cursor goes from option to option, one at a time and not
/// past the ends, so that every option can be pointed at; leaving the wizard
/// sends nothing.
pub proof fn law_every_option_can_be_chosen(s: BrowseModel)
    requires
        s.add.flow is Some,
        !s.filter.focused,
        !s.add.search_focused,
        s.add.flow->0.cursor < option_count(s) <= usize::MAX,
    ensures
        ({
            let at = s.add.flow->0.cursor;
            let below = if at + 1 < option_count(s) {
                (at + 1) as usize
            } else {
                at
            };
            let above = if at > 0 {
                (at - 1) as usize
            } else {
                at
            };
            &&& press(s, KeyCode::Down) == pointed(s, below)
            &&& press(s, KeyCode::Char('j')) == pointed(s, below)
            &&& press(s, KeyCode::Up) == pointed(s, above)
            &&& press(s, KeyCode::Char('k')) == pointed(s, above)
        }),
        ({
            let t = press(s, KeyCode::Esc);
            let u = press(s, KeyCode::Char('q'));
            &&& t == u
            &&& t.add.flow is None
            &&& t.outbox == s.outbox
            &&& !t.add.submitting || s.add.submitting
            &&& t.level == s.level
            &&& t.lists == s.lists
            &&& t.add.results == s.add.results
            &&& t.add.raw == s.add.raw
        }),
{
}

/// The wizard opens on the highlighted result and its first step; each further
/// step opens on its usual answer, and what was answered before stays.
pub proof fn law_steps_follow_each_other(s: BrowseModel, option: usize)
    requires
        s.add.flow is Some,
        !s.filter.focused,
        !s.add.search_focused,
        option < option_count(s) <= usize::MAX,
        s.add.quality_profiles.len() <= usize::MAX,
    ensures
        ({
            let before = s.add.flow->0;
            let t = answered(s, option);
            match before.step {
                AddStep::RootFolder => {
                    let after = t.add.flow->0;
                    &&& t.add.flow is Some
                    &&& after.step == AddStep::QualityProfile
                    &&& after.result == before.result
                    &&& (s.add.quality_profiles.len() > 0 ==> after.cursor
                        < s.add.quality_profiles.len())
                },
                AddStep::QualityProfile => {
                    let after = t.add.flow->0;
                    &&& t.add.flow is Some
                    &&& after.step == AddStep::MinAvailability
                    &&& after.cursor == 2
                    &&& after.result == before.result
                    &&& after.root_folder == before.root_folder
                },
                AddStep::MinAvailability => {
                    let after = t.add.flow->0;
                    &&& t.add.flow is Some
                    &&& after.step == AddStep::Monitored
                    &&& after.cursor == 0
                    &&& after.result == before.result
                    &&& after.root_folder == before.root_folder
                    &&& after.quality_profile_id == before.quality_profile_id
                },
                AddStep::Monitored => {
                    let after = t.add.flow->0;
                    &&& t.add.flow is Some
                    &&& after.step == AddStep::Download
                    &&& after.cursor == 0
                    &&& after.result == before.result
                    &&& after.root_folder == before.root_folder
                    &&& after.quality_profile_id == before.quality_profile_id
                    &&& after.min_availability == before.min_availability
                },
                AddStep::Download => t.add.flow is None,
            }
        }),
        !(s.add.flow->0.step is Download) ==> answered(s, option).outbox == s.outbox,
{
    law_the_first_hd_profile_is_preferred(s.add.quality_profiles);
}

/// Without a result, a root folder or a profile there is nothing to add: no
/// wizard opens and nothing is sent.
pub proof fn law_nothing_is_added_without_options(s: BrowseModel)
    requires
        unobstructed(s),
        s.level is Add,
        s.add.submitting || s.add.cursor >= s.add.results.len() || s.add.root_folders.len() == 0
            || s.add.quality_profiles.len() == 0,
    ensures
        press(s, KeyCode::Enter).add == s.add,
        press(s, KeyCode::Enter).outbox == s.outbox,
        press(s, KeyCode::Enter).level == s.level,
{
}

/// The preferred profile is the first one with "1080" in its name, whatever the
/// case, and the first of all where none has it.
pub proof fn law_the_first_hd_profile_is_preferred(profiles: Seq<QualityProfile>)
    ensures
        ({
            let at = preferred_quality(profiles);
            let hd = |i: int|
                exists|k: int|
                    0 <= k && k + 4 <= lowercase(profiles[i].name@).len() && #[trigger] lowercase(
                        profiles[i].name@,
                    ).subrange(k, k + 4) == "1080"@;
            &&& profiles.len() > 0 ==> 0 <= at < profiles.len()
            &&& forall|i: int| 0 <= i < at ==> !#[trigger] hd(i)
            &&& (exists|i: int| 0 <= i < profiles.len() && #[trigger] hd(i)) ==> hd(at)
            &&& !(exists|i: int| 0 <= i < profiles.len() && #[trigger] hd(i)) ==> at == 0
        }),
{
    reveal_strlit("1080");
    lemma_first_hd(profiles);
    let hd = |i: int|
        exists|k: int|
            0 <= k && k + 4 <= lowercase(profiles[i].name@).len() && #[trigger] lowercase(
                profiles[i].name@,
            ).subrange(k, k + 4) == "1080"@;
    assert forall|i: int| #[trigger] hd(i) == occurs(lowercase(profiles[i].name@), "1080"@) by {
        let name = lowercase(profiles[i].name@);
        if occurs(name, "1080"@) {
            let at = choose|at: int| occurs_at(name, "1080"@, at);
            assert(name.subrange(at, at + 4) == "1080"@);
        }
        if hd(i) {
            let k = choose|k: int|
                0 <= k && k + 4 <= name.len() && #[trigger] name.subrange(k, k + 4) == "1080"@;
            assert(occurs_at(name, "1080"@, k));
        }
    }
}

proof fn lemma_first_hd(profiles: Seq<QualityProfile>)
    ensures
        match first_1080(profiles) {
            Some(at) => {
                &&& 0 <= at < profiles.len()
                &&& occurs(lowercase(profiles[at].name@), "1080"@)
                &&& forall|i: int|
                    0 <= i < at ==> !occurs(lowercase((#[trigger] profiles[i]).name@), "1080"@)
            },
            None => forall|i: int|
                0 <= i < profiles.len() ==> !occurs(
                    lowercase((#[trigger] profiles[i]).name@),
                    "1080"@,
                ),
        },
    decreases profiles.len(),
{
    if profiles.len() > 0 {
        let rest = profiles.drop_last();
        lemma_first_hd(rest);
        assert forall|i: int| 0 <= i < rest.len() implies #[trigger] profiles[i] == rest[i] by {}
        if first_1080(rest) is None {
            assert forall|i: int| 0 <= i < profiles.len() - 1 implies !occurs(
                lowercase((#[trigger] profiles[i]).name@),
                "1080"@,
            ) by {
                assert(rest[i] == profiles[i]);
            }
        } else {
            let at = first_1080(rest)->0;
            assert(rest[at] == profiles[at]);
            assert forall|i: int| 0 <= i < at implies !occurs(
                lowercase((#[trigger] profiles[i]).name@),
                "1080"@,
            ) by {
                assert(rest[i] == profiles[i]);
            }
        }
    }
}

// Searching and grabbing.

/// Confirming the question that opens on a release grabs exactly that release,
/// with its own guid and indexer; declining grabs nothing.
pub proof fn law_the_highlighted_release_is_grabbed(s: BrowseModel, yes: KeyCode, no: KeyCode)
    requires
        unobstructed(s),
        s.level is Search,
        s.lists.release_cursor < s.lists.releases.len(),
        yes == KeyCode::Char('y') || yes == KeyCode::Char('Y') || yes == KeyCode::Enter,
        no == KeyCode::Char('n') || no == KeyCode::Char('N') || no == KeyCode::Esc || no
            == KeyCode::Char('q'),
    ensures
        ({
            let asked = press(s, KeyCode::Enter);
            let release = s.lists.releases[s.lists.release_cursor as int];
            &&& asked.outbox == s.outbox
            &&& asked.popups.confirm is Some
            &&& press(s, KeyCode::Char(' ')) == asked
            &&& commanded(
                press(asked, yes),
                s,
                CommandKind::Grab,
                CallModel::GrabRelease { guid: release.guid@, indexer_id: release.indexer_id },
            )
            &&& same_but_popups(press(asked, no), s)
            &&& press(asked, no).popups == s.popups
        }),
{
}

/// The search menu of a movie's page searches for that movie: by itself on the
/// server, or by listing its releases and its history to choose from.
pub proof fn law_searches_are_for_the_open_movie(s: BrowseModel)
    requires
        unobstructed(s),
        s.level is MovieDetail,
    ensures
        ({
            let movie = s.level->MovieDetail_movie;
            let menu = press(s, KeyCode::Enter);
            let second = press(menu, KeyCode::Down);
            let third = press(second, KeyCode::Down);
            let listed = press(second, KeyCode::Enter);
            &&& menu.popups.search_menu == Some(0usize)
            &&& same_but_popups(menu, s)
            &&& press(s, KeyCode::Char(' ')) == menu
            &&& commanded(
                press(menu, KeyCode::Enter),
                s,
                CommandKind::AutoSearch,
                CallModel::MovieSearch { movie_id: movie.id },
            )
            &&& listed.level == (Level::Search { movie })
            &&& listed.outbox == s.outbox.push(
                RequestModel::Releases { fetch_gen: listed.gens.fetch, movie_id: movie.id },
            ).push(RequestModel::History { fetch_gen: listed.gens.fetch, movie_id: movie.id })
            &&& listed.lists.releases.len() == 0
            &&& listed.lists.history.len() == 0
            &&& listed.lists.release_cursor == 0
            &&& listed.lists.all_movies == s.lists.all_movies
            &&& listed.popups.search_menu is None
            &&& same_but_popups(press(third, KeyCode::Enter), s)
            &&& press(third, KeyCode::Enter).popups.search_menu is None
            &&& same_but_popups(press(menu, KeyCode::Esc), s)
            &&& press(menu, KeyCode::Esc).popups.search_menu is None
        }),
{
}

/// What is found for an open search is what is listed, from its first row.
pub proof fn law_found_releases_are_listed(
    s: BrowseModel,
    releases: Seq<crate::arr::models::Release>,
    history: Seq<crate::arr::models::HistoryRecord>,
)
    ensures
        ({
            let t = s.after_releases(s.gens.fetch, Ok(releases));
            &&& t.lists.releases == releases
            &&& t.lists.release_cursor == 0
            &&& !t.status.loading
            &&& t.status.error == s.status.error
            &&& t.level == s.level
            &&& t.lists.queue == s.lists.queue
            &&& t.lists.all_movies == s.lists.all_movies
            &&& t.outbox == s.outbox
        }),
        ({
            let t = s.after_history(s.gens.fetch, Ok(history));
            &&& t.lists.history == history
            &&& t.lists.releases == s.lists.releases
            &&& t.lists.release_cursor == s.lists.release_cursor
            &&& t.level == s.level
            &&& t.outbox == s.outbox
        }),
{
}

// Deleting.

/// Deleting a movie's file is asked for first, and deletes the file of the
/// open movie and no other; a movie without a file asks for nothing.
pub proof fn law_the_open_movies_file_is_deleted(s: BrowseModel, yes: KeyCode, no: KeyCode)
    requires
        unobstructed(s),
        s.level is MovieDetail,
        yes == KeyCode::Char('y') || yes == KeyCode::Char('Y') || yes == KeyCode::Enter,
        no == KeyCode::Char('n') || no == KeyCode::Char('N') || no == KeyCode::Esc || no
            == KeyCode::Char('q'),
    ensures
        match s.level->MovieDetail_movie.movie_file {
            Some(file) => {
                let asked = press(s, KeyCode::Char('x'));
                &&& asked.popups.confirm is Some
                &&& same_but_popups(asked, s)
                &&& commanded(
                    press(asked, yes),
                    s,
                    CommandKind::DeleteFile,
                    CallModel::DeleteMovieFile { file_id: file.id },
                )
                &&& same_but_popups(press(asked, no), s)
                &&& press(asked, no).popups == s.popups
            },
            None => press(s, KeyCode::Char('x')) == s,
        },
{
}

/// Deleting a movie is asked for first and deletes the open movie, with the
/// two options as they were left: its files go and it stays addable unless
/// they were flipped. Each option is flipped by itself.
pub proof fn law_the_open_movie_is_deleted(s: BrowseModel)
    requires
        unobstructed(s),
        s.level is MovieDetail,
    ensures
        ({
            let id = s.level->MovieDetail_movie.id;
            let asked = press(s, KeyCode::Char('z'));
            let kept = press(asked, KeyCode::Char(' '));
            let lower = press(asked, KeyCode::Down);
            let excluded = press(lower, KeyCode::Char(' '));
            let both = press(press(excluded, KeyCode::Up), KeyCode::Char(' '));
            let call = |delete_files: bool, add_exclusion: bool|
                CallModel::DeleteMovie { id, delete_files, add_exclusion };
            let kind = CommandKind::DeleteMovie(id);
            &&& asked.popups.delete_prompt is Some
            &&& same_but_popups(asked, s)
            &&& commanded(press(asked, KeyCode::Enter), s, kind, call(true, false))
            &&& commanded(press(kept, KeyCode::Enter), s, kind, call(false, false))
            &&& commanded(press(excluded, KeyCode::Enter), s, kind, call(true, true))
            &&& commanded(press(both, KeyCode::Enter), s, kind, call(false, true))
            &&& same_but_popups(press(asked, KeyCode::Esc), s)
            &&& press(asked, KeyCode::Esc).popups == s.popups
            &&& same_but_popups(press(asked, KeyCode::Char('q')), s)
            &&& press(asked, KeyCode::Char('q')).popups == s.popups
        }),
{
}

/// With nothing marked, a removal on the downloads page is about the
/// highlighted download alone: out of the client and not blocked, unless the
/// options are flipped.
pub proof fn law_the_highlighted_download_is_removed(s: BrowseModel)
    requires
        unobstructed(s),
        s.level is Downloads,
        s.downloads.marks.len() == 0,
        s.downloads.cursor < s.lists.queue.len(),
    ensures
        ({
            let ids = seq![s.lists.queue[s.downloads.cursor as int].id];
            let asked = press(s, KeyCode::Char('x'));
            let left = press(asked, KeyCode::Char(' '));
            let blocked = press(press(asked, KeyCode::Down), KeyCode::Char(' '));
            let call = |remove_from_client: bool, blocklist: bool|
                CallModel::DeleteQueueItems { ids, remove_from_client, blocklist };
            let kind = CommandKind::DeleteQueue;
            &&& asked.downloads.prompt is Some
            &&& asked.outbox == s.outbox
            &&& commanded(press(asked, KeyCode::Enter), s, kind, call(true, false))
            &&& commanded(press(left, KeyCode::Enter), s, kind, call(false, false))
            &&& commanded(press(blocked, KeyCode::Enter), s, kind, call(true, true))
            &&& press(asked, KeyCode::Esc) == s
            &&& press(asked, KeyCode::Char('q')) == s
        }),
{
    let ids = seq![s.lists.queue[s.downloads.cursor as int].id];
    let asked = press(s, KeyCode::Char('x'));
    assert(asked.downloads.prompt->0.ids =~= ids);
}

/// With some marked, a removal is about exactly the marked downloads that are
/// in the queue, wherever the cursor is.
pub proof fn law_the_marked_downloads_are_removed(s: BrowseModel, ids: Seq<i64>)
    requires
        unobstructed(s),
        s.level is Downloads,
        s.downloads.marks.len() > 0,
        press(press(s, KeyCode::Char('x')), KeyCode::Enter).outbox == s.outbox.push(
            RequestModel::Command {
                fetch_gen: s.gens.fetch,
                kind: CommandKind::DeleteQueue,
                call: CallModel::DeleteQueueItems {
                    ids,
                    remove_from_client: true,
                    blocklist: false,
                },
            },
        ),
        press(s, KeyCode::Char('x')).downloads.prompt is Some,
    ensures
        forall|id: i64| #[trigger]
            ids.contains(id) <==> s.downloads.marks.contains(id) && exists|i: int|
                0 <= i < s.lists.queue.len() && (#[trigger] s.lists.queue[i]).id == id,
{
    let queue = crate::apps::downloads::queue_ids(s.lists.queue);
    let t = press(press(s, KeyCode::Char('x')), KeyCode::Enter);
    assert(t.outbox.last() == s.outbox.push(
        RequestModel::Command {
            fetch_gen: s.gens.fetch,
            kind: CommandKind::DeleteQueue,
            call: CallModel::DeleteQueueItems { ids, remove_from_client: true, blocklist: false },
        },
    ).last());
    assert(ids == s.downloads.targets(queue));
    assert forall|id: i64| #[trigger] ids.contains(id) <==> s.downloads.marks.contains(id)
        && exists|i: int|
        0 <= i < s.lists.queue.len() && (#[trigger] s.lists.queue[i]).id == id by {
        crate::apps::downloads::law_marked_downloads_are_the_targets(s.downloads, queue, id);
        if queue.contains(id) {
            let i = choose|i: int| 0 <= i < queue.len() && queue[i] == id;
            assert(s.lists.queue[i].id == id);
        }
        if exists|i: int| 0 <= i < s.lists.queue.len() && (#[trigger] s.lists.queue[i]).id == id {
            let i = choose|i: int|
                0 <= i < s.lists.queue.len() && (#[trigger] s.lists.queue[i]).id == id;
            assert(queue[i] == id);
        }
    }
}

/// Marked downloads that are still queued can always be removed: the question
/// opens, and agreeing to it asks for their removal.
pub proof fn law_marked_downloads_can_be_removed(s: BrowseModel, at: int)
    requires
        unobstructed(s),
        s.level is Downloads,
        s.downloads.marks.len() > 0,
        0 <= at < s.lists.queue.len(),
        s.downloads.marks.contains(s.lists.queue[at].id),
    ensures
        ({
            let asked = press(s, KeyCode::Char('x'));
            let t = press(asked, KeyCode::Enter);
            &&& asked.downloads.prompt is Some
            &&& t.outbox.len() == s.outbox.len() + 1
            &&& t.outbox.last() matches RequestModel::Command { fetch_gen, kind, call }
            &&& fetch_gen == s.gens.fetch
            &&& kind == CommandKind::DeleteQueue
            &&& call matches CallModel::DeleteQueueItems { remove_from_client, blocklist, ids }
            &&& remove_from_client
            &&& !blocklist
            &&& ids.contains(s.lists.queue[at].id)
        }),
{
    let queue = crate::apps::downloads::queue_ids(s.lists.queue);
    let id = s.lists.queue[at].id;
    assert(queue[at] == id);
    crate::apps::downloads::law_marked_downloads_are_the_targets(s.downloads, queue, id);
    assert(s.downloads.targets(queue).contains(id));
    assert(s.downloads.targets(queue).len() > 0);
}

/// On the downloads page the blank marks the highlighted download, or takes
/// its mark away, and leaves every other mark.
pub proof fn law_the_blank_marks_the_highlighted_download(s: BrowseModel, other: i64)
    requires
        unobstructed(s),
        s.level is Downloads,
        s.downloads.cursor < s.lists.queue.len(),
    ensures
        ({
            let id = s.lists.queue[s.downloads.cursor as int].id;
            let t = press(s, KeyCode::Char(' '));
            &&& t.downloads.marks.contains(id) == !s.downloads.marks.contains(id)
            &&& other != id ==> t.downloads.marks.contains(other) == s.downloads.marks.contains(
                other,
            )
            &&& t.downloads.cursor == s.downloads.cursor
            &&& t.outbox == s.outbox
            &&& t.lists == s.lists
            &&& t.level == s.level
        }),
{
}

} // verus!
