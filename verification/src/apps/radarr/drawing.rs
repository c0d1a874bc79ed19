//! What the Radarr screens show of what they hold.

use std::sync::Arc;
use vstd::prelude::*;

use crate::apps::radarr::browse::{AddStep, Confirm};
use crate::apps::radarr::state::{movie_with_id, BrowseModel};
use crate::apps::radarr::view::{status_text, title_columns, Body};
use crate::arr::models::QueueItem;
use crate::arr::rows::release_titles;
use crate::radarr::{queued_movie, Movie, MovieStatusModel};
use crate::text::decimal;
use crate::ui::line::Tone;
use crate::ui::rows::{inner_width, lists_from, page_bounds};

verus! {

/// The titles of movies.
pub open spec fn movie_titles(movies: Seq<Arc<Movie>>) -> Seq<Option<String>> {
    Seq::new(movies.len(), |i: int| movies[i].title)
}

/// The list shows its movies in order, the highlighted one among them.
pub proof fn law_movies_are_shown_in_order(
    s: BrowseModel,
    now: Seq<char>,
    width: u16,
    height: u16,
)
    requires
        s.lists.movie_cursor < s.lists.movies.len(),
    ensures
        exists|first: int|
            lists_from(
                s.movie_rows(now, width, height),
                movie_titles(s.lists.movies),
                title_columns(width),
                s.lists.movie_cursor,
                first,
            ),
{
    let (first, end) = page_bounds(s.lists.movie_cursor, s.lists.movies.len(), height, 3);
    assert(lists_from(
        s.movie_rows(now, width, height),
        movie_titles(s.lists.movies),
        title_columns(width),
        s.lists.movie_cursor,
        first,
    ));
}

/// A movie in the list tells its own state: that of its own download, not of
/// another's.
pub proof fn law_movies_tell_their_own_state(
    s: BrowseModel,
    now: Seq<char>,
    width: u16,
    height: u16,
    k: int,
)
    requires
        0 <= k < s.movie_rows(now, width, height).len(),
    ensures
        ({
            let (first, end) = page_bounds(s.lists.movie_cursor, s.lists.movies.len(), height, 3);
            let movie = s.lists.movies[first + k];
            let shown = s.movie_rows(now, width, height)[k].right[0].0;
            &&& movie.movie_file is None && queued_movie(s.lists.queue, movie.id) is Some ==> shown
                == "↓ "@ + decimal(queued_movie(s.lists.queue, movie.id)->0.progress as nat) + "%"@
            &&& movie.movie_file is None && queued_movie(s.lists.queue, movie.id) is None
                && movie.release_date is None ==> shown == "unreleased"@
            &&& movie.movie_file is Some && movie.movie_file->0.quality is None ==> shown
                == "downloaded"@
        }),
{
}

/// The state of a movie in words.
pub proof fn law_states_are_told_in_words(quality: Seq<char>, percent: u8, date: Seq<char>)
    ensures
        status_text(MovieStatusModel::Downloaded(quality)).0 == quality,
        status_text(MovieStatusModel::Downloading(percent)).0 == "↓ "@ + decimal(percent as nat)
            + "%"@,
        status_text(MovieStatusModel::Missing).0 == "missing"@,
        status_text(MovieStatusModel::Unreleased(Some(date))).0 == "unreleased "@ + date,
        status_text(MovieStatusModel::Unreleased(None)).0 == "unreleased"@,
{
}

/// The releases are shown in order, the highlighted one among them; those with
/// rejections carry a mark.
pub proof fn law_releases_are_shown_in_order(s: BrowseModel, width: u16, height: u16)
    requires
        s.lists.release_cursor < s.lists.releases.len(),
    ensures
        exists|first: int| #[trigger]
            lists_from(
                s.release_rows(width, height),
                release_titles(s.lists.releases),
                inner_width(width, 6),
                s.lists.release_cursor,
                first,
            ) && forall|k: int|
                0 <= k < s.release_rows(width, height).len() ==> (s.lists.releases[first
                    + k].rejected <==> (#[trigger] s.release_rows(width, height)[k]).below[0].contains(
                    (" !"@, Tone::Error),
                )),
{
    let (first, end) = page_bounds(s.lists.release_cursor, s.lists.releases.len(), height, 3);
    let rows = s.release_rows(width, height);
    assert(lists_from(
        rows,
        release_titles(s.lists.releases),
        inner_width(width, 6),
        s.lists.release_cursor,
        first,
    ));
    reveal_strlit(" !");
    reveal_strlit(" ✓");
    assert forall|k: int| 0 <= k < rows.len() implies (s.lists.releases[first + k].rejected
        <==> (#[trigger] rows[k]).below[0].contains((" !"@, Tone::Error))) by {
        let line = rows[k].below[0];
        if s.lists.releases[first + k].rejected {
            assert(line[2] == (" !"@, Tone::Error));
        } else if line.contains((" !"@, Tone::Error)) {
            let i = choose|i: int| 0 <= i < line.len() && line[i] == (" !"@, Tone::Error);
            assert(line[i].1 == Tone::Error);
        }
    }
}

/// The found movies are shown in order, the highlighted one among them.
pub proof fn law_found_movies_are_shown_in_order(s: BrowseModel, width: u16, height: u16)
    requires
        s.add.cursor < s.add.results.len(),
    ensures
        exists|first: int|
            lists_from(
                s.add_rows(width, height),
                movie_titles(s.add.results),
                inner_width(width, 6),
                s.add.cursor,
                first,
            ),
{
    let (first, end) = page_bounds(s.add.cursor, s.add.results.len(), height, 4);
    assert(lists_from(
        s.add_rows(width, height),
        movie_titles(s.add.results),
        inner_width(width, 6),
        s.add.cursor,
        first,
    ));
}

/// A download goes by the title of its movie where that is known, else by its
/// own.
pub proof fn law_downloads_go_by_the_title_of_their_movie(s: BrowseModel, item: QueueItem)
    ensures
        item.movie_id is Some && movie_with_id(s.lists.all_movies, item.movie_id->0) is Some
            && movie_with_id(s.lists.all_movies, item.movie_id->0)->0.title is Some
            ==> s.download_name(item) == movie_with_id(
            s.lists.all_movies,
            item.movie_id->0,
        )->0.title->0@,
        item.movie_id is None && item.title is Some ==> s.download_name(item) == item.title->0@,
        item.movie_id is None && item.title is None ==> s.download_name(item) == "(unknown)"@,
{
}

/// What a step of the wizard lists is what can be chosen in it, row by row.
pub proof fn law_the_wizard_lists_what_can_be_chosen(s: BrowseModel, i: int)
    requires
        s.add.flow is Some,
    ensures
        ({
            let step = s.add.flow->0.step;
            let labels = s.step_labels();
            &&& step == AddStep::RootFolder ==> labels.len() == s.add.root_folders.len() && (0 <= i
                < labels.len() ==> labels[i] == s.add.root_folders[i].path@)
            &&& step == AddStep::QualityProfile ==> labels.len() == s.add.quality_profiles.len()
                && (0 <= i < labels.len() ==> labels[i] == s.add.quality_profiles[i].name@)
            &&& step == AddStep::MinAvailability ==> labels == seq![
                "Announced"@,
                "In Cinemas"@,
                "Released"@,
            ]
            &&& step == AddStep::Monitored || step == AddStep::Download ==> labels == seq![
                "Yes"@,
                "No"@,
            ]
        }),
{
}

/// A release with rejections is asked about as such, and no other is.
pub proof fn law_rejections_are_asked_about(s: BrowseModel, index: usize)
    requires
        s.popups.confirm == Some(Confirm::Grab { index }),
        index < s.lists.releases.len(),
    ensures
        s.lists.releases[index as int].rejected ==> s.confirm_question() == Some(
            "Release has rejections. Download anyway?",
        ),
        !s.lists.releases[index as int].rejected ==> s.confirm_question() == Some(
            "Download this release?",
        ),
{
}

/// An error is shown before a notice, and a row is kept for what is shown.
pub proof fn law_errors_are_shown_before_notices(s: BrowseModel)
    ensures
        s.status.error is Some ==> s.message() == Some(("Error: "@ + s.status.error->0, Tone::Error)),
        s.status.error is None && s.status.notice is Some ==> s.message() == Some(
            (s.status.notice->0@, Tone::Accent),
        ),
        s.message() is Some <==> s.layout().message_rows == 1,
        s.message() is None <==> s.layout().message_rows == 0,
{
}

/// Each page has its own body, named at the top.
pub proof fn law_each_page_shows_its_own_body(s: BrowseModel)
    requires
        !s.overview.fullscreen,
    ensures
        s.layout().body == Body::MovieList <==> s.level is MovieList,
        s.layout().body == Body::MovieDetail <==> s.level is MovieDetail,
        s.layout().body == Body::Search <==> s.level is Search,
        s.layout().body == Body::AddResults <==> s.level is Add,
        s.layout().body == Body::Downloads <==> s.level is Downloads,
        s.level is MovieList ==> s.breadcrumb() == "Movies"@,
        s.level is Downloads && s.downloads.marks.len() > 0 ==> s.breadcrumb() == "Downloads ("@
            + decimal(s.downloads.marks.len()) + " marked)"@,
        s.level is Downloads && s.downloads.marks.len() == 0 ==> s.breadcrumb() == "Downloads ("@
            + decimal(s.lists.queue.len()) + ")"@,
{
}

} // verus!
