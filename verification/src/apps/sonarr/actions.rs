//! What the keys of the Sonarr browse screen are for: which request each of
//! them leads to, and about which series, season, episode, release or download.

use vstd::prelude::*;

use crate::app::{KeyCode, KeyEvent, KeyModifiers};
use crate::apps::downloads::{law_marked_downloads_are_the_targets, queue_ids};
use crate::apps::sonarr::browse::{FormMode, Level, SERIES_TYPE};
use crate::apps::sonarr::msg::{CallModel, CommandKind, RequestModel};
use crate::apps::sonarr::state::{ActiveModel, AddModel, BrowseModel};
use crate::json::{json_bool, json_int, json_object_of, json_text, json_with_member};
use crate::text::trimmed;
use crate::ui::form::{field_at, FieldModel, FormModel};
use crate::ui::input::TextModel;

verus! {

/// The screen after a key with nothing held.
pub open spec fn press(s: BrowseModel, code: KeyCode) -> BrowseModel {
    s.after_key(
        KeyEvent {
            code,
            modifiers: KeyModifiers { shift: false, control: false, alt: false, other: false },
        },
    )
}

/// No field, form, prompt or popup takes the keys.
pub open spec fn unobstructed(s: BrowseModel) -> bool {
    &&& !s.filter.focused
    &&& !s.add.search_focused
    &&& s.add.form is None
    &&& s.downloads.prompt is None
    &&& s.popups.confirm is None
    &&& s.popups.delete_prompt is None
    &&& s.popups.sort_menu is None
    &&& s.popups.search_menu is None
    &&& s.popups.rejections is None
}

/// The same except for the popups.
pub open spec fn same_but_popups(t: BrowseModel, s: BrowseModel) -> bool {
    &&& t.level == s.level
    &&& t.lists == s.lists
    &&& t.downloads == s.downloads
    &&& t.filter == s.filter
    &&& t.sort == s.sort
    &&& t.add == s.add
    &&& t.monitors == s.monitors
    &&& t.status == s.status
    &&& t.gens == s.gens
    &&& t.outbox == s.outbox
}

/// One mutation more was asked for, under the view's generation, and nothing
/// else happened but that the screen is busy and the popups are closed.
pub open spec fn commanded(
    t: BrowseModel,
    s: BrowseModel,
    kind: CommandKind,
    call: CallModel,
) -> bool {
    &&& t.outbox == s.outbox.push(RequestModel::Command { fetch_gen: s.gens.fetch, kind, call })
    &&& t.level == s.level
    &&& t.lists == s.lists
    &&& t.add == s.add
    &&& t.monitors == s.monitors
    &&& t.gens == s.gens
    &&& t.status.loading
    &&& t.popups.confirm is None
    &&& t.popups.delete_prompt is None
    &&& t.popups.search_menu is None
    &&& t.downloads.prompt is None
}

// The forms.

/// The open form with other rows and the save button in focus.
pub open spec fn filled_in(s: BrowseModel, fields: Seq<FieldModel>) -> BrowseModel {
    let active = s.add.form->0;
    BrowseModel {
        add: AddModel {
            form: Some(
                ActiveModel {
                    form: FormModel { fields, focus: fields.len() as usize, ..active.form },
                    ..active
                },
            ),
            ..s.add
        },
        ..s
    }
}

/// A picker on another option.
pub open spec fn picked(field: FieldModel, option: usize) -> FieldModel {
    FieldModel { selected: option, ..field }
}

/// A text row with another text.
pub open spec fn written(field: FieldModel, value: Seq<char>) -> FieldModel {
    FieldModel { input: TextModel { value, ..field.input }, ..field }
}

/// The add form has a row for each choice, and offers the profiles by name.
pub proof fn law_the_add_form_asks_for_each_choice(s: BrowseModel)
    requires
        unobstructed(s),
        s.level is Add,
        !s.add.submitting,
        s.add.cursor < s.add.results.len(),
        s.add.results.len() == s.add.raw.len(),
        s.add.root_folders.len() > 0,
        s.add.quality_profiles.len() > 0,
    ensures
        ({
            let t = press(s, KeyCode::Enter);
            let fields = t.add.form->0.form.fields;
            &&& t.add.form is Some
            &&& t.add.form->0.mode == (FormMode::Add { body: s.add.raw[s.add.cursor as int] })
            &&& t.outbox == s.outbox
            &&& t.level == s.level
            &&& fields.len() == 6
            &&& fields[0].label == "Root folder"
            &&& fields[0].input.value == s.add.root_folders[0].path@
            &&& fields[1].label == "Quality profile"
            &&& fields[1].options.len() == s.add.quality_profiles.len()
            &&& forall|i: int|
                0 <= i < s.add.quality_profiles.len() ==> #[trigger] fields[1].options[i]
                    == s.add.quality_profiles[i].name@
            &&& fields[2].label == "Series type"
            &&& fields[2].options == seq!["Standard"@, "Daily"@, "Anime"@]
            &&& fields[3].label == "Use season folders?"
            &&& fields[4].label == "Monitor this show?"
            &&& fields[5].label == "Search & download now?"
            &&& forall|i: int|
                3 <= i < 6 ==> (#[trigger] fields[i]).options == seq!["Yes"@, "No"@]
            &&& forall|i: int|
                1 <= i < 6 ==> (#[trigger] fields[i]).selected == 0 && fields[i].visible
        }),
{
}

/// Whatever is chosen in the add form is what is sent: the lookup object of the
/// highlighted result with the profile, the root folder, the monitoring, the
/// season folders and the type of the form's rows set on it, and a search
/// afterwards exactly if the last row says so. The server itself is never told
/// to search.
#[verifier::rlimit(40)]
pub proof fn law_the_add_form_sends_what_was_chosen(
    s: BrowseModel,
    root: Seq<char>,
    profile: usize,
    kind: usize,
    folders: usize,
    monitored: usize,
    search: usize,
)
    requires
        unobstructed(s),
        s.level is Add,
        !s.add.submitting,
        s.add.cursor < s.add.results.len(),
        s.add.results.len() == s.add.raw.len(),
        s.add.root_folders.len() > 0,
        profile < s.add.quality_profiles.len(),
        trimmed(root).len() > 0,
        kind < 3,
        folders < 2,
        monitored < 2,
        search < 2,
    ensures
        ({
            let opened = press(s, KeyCode::Enter);
            let f = opened.add.form->0.form.fields;
            let chosen = seq![
                written(f[0], root),
                picked(f[1], profile),
                picked(f[2], kind),
                picked(f[3], folders),
                picked(f[4], monitored),
                picked(f[5], search),
            ];
            let t = press(filled_in(opened, chosen), KeyCode::Enter);
            let raw = s.add.raw[s.add.cursor as int];
            let a = json_with_member(
                raw,
                "qualityProfileId"@,
                json_int(s.add.quality_profiles[profile as int].id as int),
            );
            let b = json_with_member(a, "rootFolderPath"@, json_text(trimmed(root)));
            let c = json_with_member(b, "monitored"@, json_bool(monitored == 0));
            let d = json_with_member(c, "seasonFolder"@, json_bool(folders == 0));
            let e = json_with_member(
                d,
                "seriesType"@,
                json_text(
                    if kind == 0 {
                        "standard"@
                    } else if kind == 1 {
                        "daily"@
                    } else {
                        "anime"@
                    },
                ),
            );
            let body = json_with_member(
                e,
                "addOptions"@,
                json_with_member(
                    json_object_of("searchForMissingEpisodes"@, json_bool(false)),
                    "monitor"@,
                    json_text(
                        if monitored == 0 {
                            "all"@
                        } else {
                            "none"@
                        },
                    ),
                ),
            );
            &&& t.outbox == s.outbox.push(RequestModel::AddSeries { add_gen: t.gens.add, body })
            &&& t.gens.add != s.gens.counter
            &&& t.add.pending_search == (search == 0)
            &&& t.add.submitting
            &&& t.add.form is None
            &&& t.level == s.level
        }),
{
    reveal_with_fuel(field_at, 8);
    let opened = press(s, KeyCode::Enter);
    let f = opened.add.form->0.form.fields;
    let chosen = seq![
        written(f[0], root),
        picked(f[1], profile),
        picked(f[2], kind),
        picked(f[3], folders),
        picked(f[4], monitored),
        picked(f[5], search),
    ];
    let at = filled_in(opened, chosen);
    let form = at.add.form->0.form;
    assert(form.text(0) == root);
    assert(form.selected(1) == profile);
    assert(form.selected(2) == kind);
    assert(form.selected(3) == folders);
    assert(form.selected(5) == monitored);
    assert(form.selected(6) == search);
    assert(SERIES_TYPE@[0].1@ == "standard"@);
    assert(SERIES_TYPE@[1].1@ == "daily"@);
    assert(SERIES_TYPE@[2].1@ == "anime"@);
    assert(press(at, KeyCode::Enter) == at.commit_form(at.add.form->0));
}

/// Without a result, a root folder or a profile there is nothing to add: no
/// form opens and nothing is sent.
pub proof fn law_nothing_is_added_without_options(s: BrowseModel)
    requires
        unobstructed(s),
        s.level is Add,
        s.add.submitting || s.add.cursor >= s.add.results.len() || s.add.root_folders.len() == 0
            || s.add.quality_profiles.len() == 0,
    ensures
        press(s, KeyCode::Enter).add == s.add,
        press(s, KeyCode::Enter).outbox == s.outbox,
        press(s, KeyCode::Enter).level == s.level,
{
}

/// An edit of the open series opens on what the series has.
pub proof fn law_edits_open_on_the_current_values(s: BrowseModel)
    requires
        unobstructed(s),
        s.level is Show,
        s.add.root_folders.len() > 0,
        s.add.quality_profiles.len() > 0,
    ensures
        ({
            let series = s.level->Show_series;
            let t = press(s, KeyCode::Char('o'));
            let fields = t.add.form->0.form.fields;
            &&& t.add.form is Some
            &&& t.add.form->0.mode == (FormMode::Edit { id: series.id })
            &&& t.outbox == s.outbox
            &&& fields.len() == 5
            &&& fields[0].label == "Root folder"
            &&& fields[0].input.value == match series.root_folder_path {
                Some(root) => root@,
                None => Seq::empty(),
            }
            &&& fields[1].label == "Move existing files?"
            &&& !fields[1].visible
            &&& fields[2].label == "Quality profile"
            &&& fields[3].label == "Series type"
            &&& fields[4].label == "Use season folders?"
            &&& fields[4].selected == if series.season_folder {
                0usize
            } else {
                1usize
            }
        }),
{
}

/// What was changed in an edit form is what is sent, for the series that the
/// form is about: another root folder, profile, type or use of season folders,
/// and whether files are to be moved. What was not changed is not sent.
#[verifier::rlimit(40)]
pub proof fn law_edits_send_what_was_changed(
    s: BrowseModel,
    root: Seq<char>,
    moving: usize,
    profile: usize,
    kind: usize,
    folders: usize,
)
    requires
        unobstructed(s),
        s.level is Show,
        s.add.root_folders.len() > 0,
        profile < s.add.quality_profiles.len() <= usize::MAX,
        kind < 3,
        folders < 2,
        moving < 2,
    ensures
        ({
            let id = s.level->Show_series.id;
            let opened = press(s, KeyCode::Char('o'));
            let f = opened.add.form->0.form.fields;
            let chosen = seq![
                written(f[0], root),
                picked(f[1], moving),
                picked(f[2], profile),
                picked(f[3], kind),
                picked(f[4], folders),
            ];
            let t = press(filled_in(opened, chosen), KeyCode::Enter);
            let new_root = root != f[0].input.value && trimmed(root).len() > 0;
            let new_profile = profile != f[2].selected;
            let new_kind = kind != f[3].selected;
            let new_folders = folders != f[4].selected;
            &&& t.add.form is None
            &&& !new_root && !new_profile && !new_kind && !new_folders ==> t.outbox == s.outbox
                && t.status.notice == Some("no changes")
            &&& new_root || new_profile || new_kind || new_folders ==> t.outbox == s.outbox.push(
                RequestModel::Command {
                    fetch_gen: s.gens.fetch,
                    kind: CommandKind::SetOptions,
                    call: CallModel::EditOptions {
                        id,
                        root_folder: if new_root {
                            Some(trimmed(root))
                        } else {
                            None
                        },
                        move_files: moving == 0,
                        quality_profile_id: if new_profile {
                            Some(s.add.quality_profiles[profile as int].id)
                        } else {
                            None
                        },
                        series_type: if !new_kind {
                            None
                        } else if kind == 0 {
                            Some("standard")
                        } else if kind == 1 {
                            Some("daily")
                        } else {
                            Some("anime")
                        },
                        season_folder: if new_folders {
                            Some(folders == 0)
                        } else {
                            None
                        },
                    },
                },
            )
        }),
{
    reveal_with_fuel(field_at, 8);
    let opened = press(s, KeyCode::Char('o'));
    let f = opened.add.form->0.form.fields;
    let chosen = seq![
        written(f[0], root),
        picked(f[1], moving),
        picked(f[2], profile),
        picked(f[3], kind),
        picked(f[4], folders),
    ];
    let at = filled_in(opened, chosen);
    let form = at.add.form->0.form;
    assert(form.text(0) == root);
    assert(form.selected(4) == moving);
    assert(form.selected(1) == profile);
    assert(form.selected(2) == kind);
    assert(form.selected(3) == folders);
    assert(form.changed(0) == (root != f[0].input.value));
    assert(form.changed(1) == (profile != f[2].selected));
    assert(form.changed(2) == (kind != f[3].selected));
    assert(form.changed(3) == (folders != f[4].selected));
    assert(SERIES_TYPE@[0].1 == "standard");
    assert(SERIES_TYPE@[1].1 == "daily");
    assert(SERIES_TYPE@[2].1 == "anime");
    assert(press(at, KeyCode::Enter) == at.commit_form(at.add.form->0));
}

// Monitoring.

/// `m` asks for the opposite of the monitoring of what is in focus: the series
/// of the row, the season of the row, the episode of the row, or the episode
/// whose page is open.
pub proof fn law_m_flips_the_monitoring(s: BrowseModel)
    requires
        unobstructed(s),
        s.lists.series_cursor < s.lists.filtered.len(),
        s.lists.filtered[s.lists.series_cursor as int] < s.lists.all_series.len(),
        s.lists.episode_cursor < s.lists.episodes.len(),
        s.level is Show ==> s.lists.season_cursor < s.level->Show_series.seasons@.len(),
    ensures
        ({
            let t = press(s, KeyCode::Char('m'));
            let kind = CommandKind::SetMonitored;
            match s.level {
                Level::SeriesList => {
                    let series =
                        s.lists.all_series[s.lists.filtered[s.lists.series_cursor as int] as int];
                    commanded(
                        t,
                        s,
                        kind,
                        CallModel::SetSeriesMonitored {
                            id: series.id,
                            monitored: !series.monitored,
                        },
                    )
                },
                Level::Show { series } => {
                    let season = series.seasons@[s.lists.season_cursor as int];
                    commanded(
                        t,
                        s,
                        kind,
                        CallModel::SetSeasonMonitored {
                            series_id: series.id,
                            season_number: season.season_number,
                            monitored: !season.monitored,
                        },
                    )
                },
                Level::Episodes { .. } => {
                    let episode = s.lists.episodes[s.lists.episode_cursor as int];
                    commanded(
                        t,
                        s,
                        kind,
                        CallModel::SetEpisodeMonitored {
                            id: episode.id,
                            monitored: !episode.monitored,
                        },
                    )
                },
                Level::EpisodeDetail { episode, .. } => commanded(
                    t,
                    s,
                    kind,
                    CallModel::SetEpisodeMonitored {
                        id: episode.id,
                        monitored: !episode.monitored,
                    },
                ),
                _ => t == s,
            }
        }),
{
}

// Searching and grabbing.

/// Confirming the question that opens on a release grabs exactly that release,
/// with its own guid and indexer; declining grabs nothing.
pub proof fn law_the_highlighted_release_is_grabbed(s: BrowseModel, yes: KeyCode, no: KeyCode)
    requires
        unobstructed(s),
        s.level is Search,
        s.lists.release_cursor < s.lists.releases.len(),
        yes == KeyCode::Char('y') || yes == KeyCode::Char('Y') || yes == KeyCode::Enter,
        no == KeyCode::Char('n') || no == KeyCode::Char('N') || no == KeyCode::Esc || no
            == KeyCode::Char('q'),
    ensures
        ({
            let asked = press(s, KeyCode::Enter);
            let release = s.lists.releases[s.lists.release_cursor as int];
            &&& asked.outbox == s.outbox
            &&& asked.popups.confirm is Some
            &&& press(s, KeyCode::Char(' ')) == asked
            &&& commanded(
                press(asked, yes),
                s,
                CommandKind::Grab,
                CallModel::GrabRelease { guid: release.guid@, indexer_id: release.indexer_id },
            )
            &&& same_but_popups(press(asked, no), s)
            &&& press(asked, no).popups == s.popups
        }),
{
}

/// The search menu of an episode searches for that episode: by itself on the
/// server, or by listing its releases and its history to choose from.
pub proof fn law_searches_are_for_the_highlighted_episode(s: BrowseModel)
    requires
        unobstructed(s),
        s.level is Episodes,
        s.lists.episode_cursor < s.lists.episodes.len(),
    ensures
        ({
            let (series, season) = (s.level->Episodes_series, s.level->Episodes_season);
            let episode = s.lists.episodes[s.lists.episode_cursor as int];
            let menu = press(s, KeyCode::Enter);
            let second = press(menu, KeyCode::Down);
            let third = press(second, KeyCode::Down);
            let listed = press(second, KeyCode::Enter);
            &&& menu.popups.search_menu is Some
            &&& same_but_popups(menu, s)
            &&& press(s, KeyCode::Char(' ')) == menu
            &&& commanded(
                press(menu, KeyCode::Enter),
                s,
                CommandKind::AutoSearch,
                CallModel::EpisodeSearch { episode_id: episode.id },
            )
            &&& listed.level == (Level::Search { series, season, episode })
            &&& listed.outbox == s.outbox.push(
                RequestModel::Releases { fetch_gen: listed.gens.fetch, episode_id: episode.id },
            ).push(RequestModel::History { fetch_gen: listed.gens.fetch, episode_id: episode.id })
            &&& listed.lists.releases.len() == 0
            &&& listed.lists.history.len() == 0
            &&& listed.lists.release_cursor == 0
            &&& listed.lists.episodes == s.lists.episodes
            &&& listed.popups.search_menu is None
            &&& same_but_popups(press(third, KeyCode::Enter), s)
            &&& press(third, KeyCode::Enter).popups.search_menu is None
            &&& same_but_popups(press(menu, KeyCode::Esc), s)
            &&& press(menu, KeyCode::Esc).popups.search_menu is None
        }),
{
}

// Deleting.

/// Deleting an episode's file is asked for first, and deletes the file of the
/// open episode and no other; an episode without a file asks for nothing.
pub proof fn law_the_open_episodes_file_is_deleted(s: BrowseModel, yes: KeyCode, no: KeyCode)
    requires
        unobstructed(s),
        s.level is EpisodeDetail,
        yes == KeyCode::Char('y') || yes == KeyCode::Char('Y') || yes == KeyCode::Enter,
        no == KeyCode::Char('n') || no == KeyCode::Char('N') || no == KeyCode::Esc || no
            == KeyCode::Char('q'),
    ensures
        match s.level->EpisodeDetail_episode.episode_file {
            Some(file) => {
                let asked = press(s, KeyCode::Char('x'));
                &&& asked.popups.confirm is Some
                &&& same_but_popups(asked, s)
                &&& commanded(
                    press(asked, yes),
                    s,
                    CommandKind::DeleteFile,
                    CallModel::DeleteEpisodeFile { file_id: file.id },
                )
                &&& same_but_popups(press(asked, no), s)
                &&& press(asked, no).popups == s.popups
            },
            None => press(s, KeyCode::Char('x')) == s,
        },
{
}

/// Deleting a series is asked for first and deletes the open series, with the
/// two options as they were left: its files go and it stays addable unless
/// they were flipped. Each option is flipped by itself.
pub proof fn law_the_open_series_is_deleted(s: BrowseModel)
    requires
        unobstructed(s),
        s.level is Show,
    ensures
        ({
            let id = s.level->Show_series.id;
            let asked = press(s, KeyCode::Char('z'));
            let kept = press(asked, KeyCode::Char(' '));
            let lower = press(asked, KeyCode::Down);
            let excluded = press(lower, KeyCode::Char(' '));
            let both = press(press(excluded, KeyCode::Up), KeyCode::Char(' '));
            let call = |delete_files: bool, add_exclusion: bool|
                CallModel::DeleteSeries { id, delete_files, add_exclusion };
            let kind = CommandKind::DeleteSeries(id);
            &&& asked.popups.delete_prompt is Some
            &&& same_but_popups(asked, s)
            &&& commanded(press(asked, KeyCode::Enter), s, kind, call(true, false))
            &&& commanded(press(kept, KeyCode::Enter), s, kind, call(false, false))
            &&& commanded(press(excluded, KeyCode::Enter), s, kind, call(true, true))
            &&& commanded(press(both, KeyCode::Enter), s, kind, call(false, true))
            &&& same_but_popups(press(asked, KeyCode::Esc), s)
            &&& press(asked, KeyCode::Esc).popups == s.popups
            &&& same_but_popups(press(asked, KeyCode::Char('q')), s)
            &&& press(asked, KeyCode::Char('q')).popups == s.popups
        }),
{
}

/// With nothing marked, a removal on the downloads page is about the
/// highlighted download alone: out of the client and not blocked, unless the
/// options are flipped.
pub proof fn law_the_highlighted_download_is_removed(s: BrowseModel)
    requires
        unobstructed(s),
        s.level is Downloads,
        s.downloads.marks.len() == 0,
        s.downloads.cursor < s.lists.queue.len(),
    ensures
        ({
            let ids = seq![s.lists.queue[s.downloads.cursor as int].id];
            let asked = press(s, KeyCode::Char('x'));
            let left = press(asked, KeyCode::Char(' '));
            let blocked = press(press(asked, KeyCode::Down), KeyCode::Char(' '));
            let call = |remove_from_client: bool, blocklist: bool|
                CallModel::DeleteQueueItems { ids, remove_from_client, blocklist };
            let kind = CommandKind::DeleteQueue;
            &&& asked.downloads.prompt is Some
            &&& asked.outbox == s.outbox
            &&& commanded(press(asked, KeyCode::Enter), s, kind, call(true, false))
            &&& commanded(press(left, KeyCode::Enter), s, kind, call(false, false))
            &&& commanded(press(blocked, KeyCode::Enter), s, kind, call(true, true))
            &&& press(asked, KeyCode::Esc) == s
            &&& press(asked, KeyCode::Char('q')) == s
        }),
{
    let ids = seq![s.lists.queue[s.downloads.cursor as int].id];
    let asked = press(s, KeyCode::Char('x'));
    assert(asked.downloads.prompt->0.ids =~= ids);
}

/// With some marked, a removal is about exactly the marked downloads that are
/// in the queue, wherever the cursor is; where some of them are queued, it can
/// be asked for.
pub proof fn law_the_marked_downloads_are_removed(s: BrowseModel, at: int, id: i64)
    requires
        unobstructed(s),
        s.level is Downloads,
        s.downloads.marks.len() > 0,
        0 <= at < s.lists.queue.len(),
        s.downloads.marks.contains(s.lists.queue[at].id),
    ensures
        ({
            let asked = press(s, KeyCode::Char('x'));
            let t = press(asked, KeyCode::Enter);
            &&& asked.downloads.prompt is Some
            &&& t.outbox.len() == s.outbox.len() + 1
            &&& t.outbox.last() matches RequestModel::Command { fetch_gen, kind, call }
            &&& fetch_gen == s.gens.fetch
            &&& kind == CommandKind::DeleteQueue
            &&& call matches CallModel::DeleteQueueItems { ids, remove_from_client, blocklist }
            &&& remove_from_client
            &&& !blocklist
            &&& ids.contains(id) <==> s.downloads.marks.contains(id) && exists|i: int|
                0 <= i < s.lists.queue.len() && (#[trigger] s.lists.queue[i]).id == id
        }),
{
    let queue = queue_ids(s.lists.queue);
    assert(queue[at] == s.lists.queue[at].id);
    law_marked_downloads_are_the_targets(s.downloads, queue, s.lists.queue[at].id);
    assert(s.downloads.targets(queue).contains(s.lists.queue[at].id));
    assert(s.downloads.targets(queue).len() > 0);
    law_marked_downloads_are_the_targets(s.downloads, queue, id);
    if queue.contains(id) {
        let i = choose|i: int| 0 <= i < queue.len() && queue[i] == id;
        assert(s.lists.queue[i].id == id);
    }
    if exists|i: int| 0 <= i < s.lists.queue.len() && (#[trigger] s.lists.queue[i]).id == id {
        let i = choose|i: int|
            0 <= i < s.lists.queue.len() && (#[trigger] s.lists.queue[i]).id == id;
        assert(queue[i] == id);
    }
}

/// On the downloads page the blank marks the highlighted download, or takes
/// its mark away, and leaves every other mark.
pub proof fn law_the_blank_marks_the_highlighted_download(s: BrowseModel, other: i64)
    requires
        unobstructed(s),
        s.level is Downloads,
        s.downloads.cursor < s.lists.queue.len(),
    ensures
        ({
            let id = s.lists.queue[s.downloads.cursor as int].id;
            let t = press(s, KeyCode::Char(' '));
            &&& t.downloads.marks.contains(id) == !s.downloads.marks.contains(id)
            &&& other != id ==> t.downloads.marks.contains(other) == s.downloads.marks.contains(
                other,
            )
            &&& t.downloads.cursor == s.downloads.cursor
            &&& t.outbox == s.outbox
            &&& t.lists == s.lists
            &&& t.level == s.level
        }),
{
}

} // verus!
