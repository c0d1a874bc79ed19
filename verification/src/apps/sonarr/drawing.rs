//! What the Sonarr screens show of what they hold.

use std::sync::Arc;
use vstd::prelude::*;

use crate::apps::sonarr::browse::Confirm;
use crate::apps::sonarr::state::{series_with_id, title_of, BrowseModel};
use crate::apps::sonarr::view::{status_text, Body};
use crate::arr::models::QueueItem;
use crate::arr::rows::release_titles;
use crate::sonarr::{
    code_text, queued_episode, season_label_text, season_text, EpStatusModel, Series,
};
use crate::text::decimal;
use crate::ui::line::Tone;
use crate::ui::rows::{inner_width, lists_from, page_bounds};

verus! {

/// The titles of series.
pub open spec fn series_titles(all: Seq<Arc<Series>>) -> Seq<Option<String>> {
    Seq::new(all.len(), |i: int| all[i].title)
}

/// The titles of those series that a list picks.
pub open spec fn listed_titles(all: Seq<Arc<Series>>, picked: Seq<usize>) -> Seq<Option<String>> {
    Seq::new(picked.len(), |i: int| all[picked[i] as int].title)
}

/// The list shows its series in order, the highlighted one among them.
pub proof fn law_series_are_shown_in_order(s: BrowseModel, width: u16, height: u16)
    requires
        s.lists.series_cursor < s.lists.filtered.len(),
    ensures
        exists|first: int|
            lists_from(
                s.series_rows(width, height),
                listed_titles(s.lists.all_series, s.lists.filtered),
                inner_width(width, 6),
                s.lists.series_cursor,
                first,
            ),
{
    let (first, end) = page_bounds(s.lists.series_cursor, s.lists.filtered.len(), height, 3);
    assert(lists_from(
        s.series_rows(width, height),
        listed_titles(s.lists.all_series, s.lists.filtered),
        inner_width(width, 6),
        s.lists.series_cursor,
        first,
    ));
}

/// The seasons of a series are shown by their labels, the highlighted one among
/// them.
pub proof fn law_seasons_are_shown_in_order(s: BrowseModel, series: &Series, height: u16, k: int)
    requires
        s.lists.season_cursor < series.seasons@.len(),
        0 <= k < s.season_rows(series, height).len(),
    ensures
        ({
            let rows = s.season_rows(series, height);
            let (first, end) = page_bounds(
                s.lists.season_cursor,
                series.seasons@.len(),
                height,
                1,
            );
            &&& 0 <= first <= s.lists.season_cursor < first + rows.len() <= series.seasons@.len()
            &&& first + k == s.lists.season_cursor ==> rows[k][1] == (
                season_label_text(series.seasons@[first + k]),
                Tone::AccentBold,
            )
            &&& first + k != s.lists.season_cursor ==> rows[k][0].0 == "   "@ + season_label_text(
                series.seasons@[first + k],
            )
        }),
{
}

/// The episodes of a season are shown by code, the highlighted one among them;
/// each tells its own state.
pub proof fn law_episodes_tell_their_own_state(
    s: BrowseModel,
    now: Seq<char>,
    width: u16,
    height: u16,
    k: int,
)
    requires
        s.lists.episode_cursor < s.lists.episodes.len(),
        0 <= k < s.episode_rows(now, width, height).len(),
    ensures
        ({
            let rows = s.episode_rows(now, width, height);
            let (first, end) = page_bounds(
                s.lists.episode_cursor,
                s.lists.episodes.len(),
                height,
                1,
            );
            let episode = s.lists.episodes[first + k];
            let download = queued_episode(s.lists.queue, episode.id);
            &&& 0 <= first <= s.lists.episode_cursor < first + rows.len()
                <= s.lists.episodes.len()
            &&& rows[k][1].0 == code_text(episode.season_number, episode.episode_number) + "  "@
            &&& rows[k][1].1 == Tone::AccentBold <==> first + k == s.lists.episode_cursor
            &&& episode.episode_file is None && download is Some ==> rows[k][6].0 == "↓ "@
                + decimal(download->0.progress as nat) + "%"@
            &&& episode.episode_file is None && download is None && episode.air_date_utc is None
                ==> rows[k][6].0 == "unaired"@
            &&& episode.episode_file is Some && episode.episode_file->0.quality is None
                ==> rows[k][6].0 == "downloaded"@
        }),
{
}

/// The state of an episode in words.
pub proof fn law_states_are_told_in_words(quality: Seq<char>, percent: u8)
    ensures
        status_text(EpStatusModel::Downloaded(quality)).0 == quality,
        status_text(EpStatusModel::Downloading(percent)).0 == "↓ "@ + decimal(percent as nat) + "%"@,
        status_text(EpStatusModel::Missing).0 == "missing"@,
        status_text(EpStatusModel::Unaired).0 == "unaired"@,
{
}

/// The releases are shown in order, the highlighted one among them; those with
/// rejections carry a mark.
pub proof fn law_releases_are_shown_in_order(s: BrowseModel, width: u16, height: u16)
    requires
        s.lists.release_cursor < s.lists.releases.len(),
    ensures
        exists|first: int| #[trigger]
            lists_from(
                s.release_rows(width, height),
                release_titles(s.lists.releases),
                inner_width(width, 6),
                s.lists.release_cursor,
                first,
            ) && forall|k: int|
                0 <= k < s.release_rows(width, height).len() ==> (s.lists.releases[first
                    + k].rejected <==> (#[trigger] s.release_rows(width, height)[k]).below[0].contains(
                    (" !"@, Tone::Error),
                )),
{
    let (first, end) = page_bounds(s.lists.release_cursor, s.lists.releases.len(), height, 3);
    let rows = s.release_rows(width, height);
    assert(lists_from(
        rows,
        release_titles(s.lists.releases),
        inner_width(width, 6),
        s.lists.release_cursor,
        first,
    ));
    reveal_strlit(" !");
    reveal_strlit(" ✓");
    assert forall|k: int| 0 <= k < rows.len() implies (s.lists.releases[first + k].rejected
        <==> (#[trigger] rows[k]).below[0].contains((" !"@, Tone::Error))) by {
        let line = rows[k].below[0];
        if s.lists.releases[first + k].rejected {
            assert(line[2] == (" !"@, Tone::Error));
        } else if line.contains((" !"@, Tone::Error)) {
            let i = choose|i: int| 0 <= i < line.len() && line[i] == (" !"@, Tone::Error);
            assert(line[i].1 == Tone::Error);
        }
    }
}

/// The found series are shown in order, the highlighted one among them.
pub proof fn law_found_series_are_shown_in_order(s: BrowseModel, width: u16, height: u16)
    requires
        s.add.cursor < s.add.results.len(),
    ensures
        exists|first: int|
            lists_from(
                s.add_rows(width, height),
                series_titles(s.add.results),
                inner_width(width, 6),
                s.add.cursor,
                first,
            ),
{
    let (first, end) = page_bounds(s.add.cursor, s.add.results.len(), height, 4);
    assert(lists_from(
        s.add_rows(width, height),
        series_titles(s.add.results),
        inner_width(width, 6),
        s.add.cursor,
        first,
    ));
}

/// A download goes by the title of its series where that is known, else by its
/// own, and by the code of its episode.
pub proof fn law_downloads_go_by_the_title_of_their_series(s: BrowseModel, item: QueueItem)
    ensures
        item.series_id is Some && series_with_id(s.lists.all_series, item.series_id->0) is Some
            && series_with_id(s.lists.all_series, item.series_id->0)->0.title is Some
            ==> s.download_name(item) == series_with_id(
            s.lists.all_series,
            item.series_id->0,
        )->0.title->0@,
        item.series_id is None && item.title is Some ==> s.download_name(item) == item.title->0@,
        item.series_id is None && item.title is None ==> s.download_name(item) == "(unknown)"@,
        s.download_pieces(item).name == s.download_name(item),
        item.episode is Some ==> s.download_pieces(item).code == Some(
            code_text(item.episode->0.season_number, item.episode->0.episode_number),
        ),
        item.episode is None ==> s.download_pieces(item).code is None,
{
}

/// A release with rejections is asked about as such, and no other is.
pub proof fn law_rejections_are_asked_about(s: BrowseModel, index: usize)
    requires
        s.popups.confirm == Some(Confirm::Grab { index }),
        index < s.lists.releases.len(),
    ensures
        s.lists.releases[index as int].rejected ==> s.confirm_question() == Some(
            "Release has rejections. Download anyway?",
        ),
        !s.lists.releases[index as int].rejected ==> s.confirm_question() == Some(
            "Download this release?",
        ),
{
}

/// An error is shown before a notice, and a row is kept for what is shown.
pub proof fn law_errors_are_shown_before_notices(s: BrowseModel)
    ensures
        s.status.error is Some ==> s.message() == Some(("Error: "@ + s.status.error->0, Tone::Error)),
        s.status.error is None && s.status.notice is Some ==> s.message() == Some(
            (s.status.notice->0@, Tone::Accent),
        ),
        s.message() is Some <==> s.layout().message_rows == 1,
        s.message() is None <==> s.layout().message_rows == 0,
{
}

/// Each page has its own body, named at the top; a form covers them all.
pub proof fn law_each_page_shows_its_own_body(s: BrowseModel)
    ensures
        s.add.form is Some <==> s.layout().body == Body::Form,
        s.add.form is None ==> {
            &&& s.layout().body == Body::SeriesList <==> s.level is SeriesList
            &&& s.layout().body == Body::Show <==> s.level is Show
            &&& s.layout().body == Body::Episodes <==> s.level is Episodes
            &&& s.layout().body == Body::EpisodeInfo <==> s.level is EpisodeDetail
            &&& s.layout().body == Body::Search <==> s.level is Search
            &&& s.layout().body == Body::AddResults <==> s.level is Add
            &&& s.layout().body == Body::Downloads <==> s.level is Downloads
        },
        s.level is SeriesList ==> s.breadcrumb() == "Series"@,
        s.level is Downloads && s.downloads.marks.len() > 0 ==> s.breadcrumb() == "Downloads ("@
            + decimal(s.downloads.marks.len()) + " marked)"@,
        s.level is Downloads && s.downloads.marks.len() == 0 ==> s.breadcrumb() == "Downloads ("@
            + decimal(s.lists.queue.len()) + ")"@,
        s.level is Episodes ==> s.breadcrumb() == title_of(*s.level->Episodes_series) + " / "@
            + season_text(s.level->Episodes_season.season_number),
{
}

} // verus!
