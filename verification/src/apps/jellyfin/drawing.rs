//! What the Jellyfin screens show of what they hold.

use vstd::prelude::*;

use crate::apps::jellyfin::library::{SeasonRow, TABS};
use crate::apps::jellyfin::state::BrowseModel;
use crate::apps::jellyfin::view::{episode_mark, first_centred, season_count};
use crate::jellyfin::{is_watched, item_code, title_text, MediaItem};
use crate::text::decimal;
use crate::ui::line::Tone;
use crate::ui::list::entries_per_page;
use crate::ui::rows::{inner_width, page_bounds};
use crate::ui::text::truncated;

verus! {

/// The list shows its items in order, the highlighted one among them; what has
/// been watched is dimmed.
pub proof fn law_items_are_shown_in_order(s: BrowseModel, width: u16, height: u16, k: int)
    requires
        s.lists.cursor < s.lists.items.len(),
        0 <= k < s.item_rows(width, height).len(),
    ensures
        ({
            let rows = s.item_rows(width, height);
            let first = first_centred(
                s.lists.cursor as int,
                s.lists.items.len() as int,
                entries_per_page(height, 3) as int,
            );
            let item = *s.lists.items[first + k];
            &&& 0 <= first <= s.lists.cursor < first + rows.len() <= s.lists.items.len()
            &&& rows[k].title[1].0 == truncated(title_text(item), inner_width(width, 6))
            &&& rows[k].title[1].1 == Tone::AccentBold <==> first + k == s.lists.cursor
            &&& first + k != s.lists.cursor ==> (rows[k].title[1].1 == Tone::Dim <==> is_watched(
                item,
            ))
        }),
{
}

/// The episodes are shown by their codes, the highlighted one among them; what
/// has been watched is dimmed and marked.
pub proof fn law_episodes_are_shown_in_order(s: BrowseModel, width: u16, height: u16, k: int)
    requires
        s.lists.cursor < s.lists.items.len(),
        0 <= k < s.episode_rows(width, height).len(),
    ensures
        ({
            let rows = s.episode_rows(width, height);
            let (first, end) = page_bounds(s.lists.cursor, s.lists.items.len(), height, 1);
            let item = *s.lists.items[first + k];
            &&& 0 <= first <= s.lists.cursor < first + rows.len() <= s.lists.items.len()
            &&& rows[k][1].0 == item_code(item) + "  "@
            &&& rows[k][1].1 == Tone::AccentBold <==> first + k == s.lists.cursor
            &&& first + k != s.lists.cursor ==> (rows[k][1].1 == Tone::Dim <==> is_watched(item))
            &&& is_watched(item) ==> rows[k][3].0 == "  ✓"@
        }),
{
}

/// An episode that is not watched tells how far it was played, if it was.
pub proof fn law_unwatched_episodes_tell_their_progress(item: MediaItem)
    requires
        !is_watched(item),
    ensures
        item.user_data is Some && item.user_data->0.progress is Some ==> episode_mark(item) == "  "@
            + item.user_data->0.progress->0@ + "%"@,
        item.user_data is None || item.user_data->0.progress is None ==> episode_mark(item).len()
            == 0,
{
}

/// A season tells how many of its episodes were watched, and has a mark once
/// all of them were.
pub proof fn law_seasons_tell_what_was_watched(season: SeasonRow)
    ensures
        ({
            let ratio = "  "@ + decimal(season.watched_count as nat) + "/"@ + decimal(
                season.episode_count as nat,
            );
            &&& season.episode_count > 0 && season.watched_count == season.episode_count
                ==> season_count(season) == ratio + " ✓"@
            &&& season.episode_count == 0 || season.watched_count < season.episode_count
                ==> season_count(season) == ratio
        }),
{
}

/// The open tab alone is highlighted among the five.
pub proof fn law_the_open_tab_is_highlighted(s: BrowseModel, i: int)
    requires
        0 <= i < TABS@.len(),
    ensures
        s.tab_strip()[2 * i].1 == Tone::Badge <==> TABS@[i] == s.place.tab,
        s.tab_strip()[2 * i].0 == " "@ + TABS@[i].label()@ + " "@,
{
    assert(TABS@.len() == 5);
}

/// The row at the top names the open series before anything else.
pub proof fn law_the_open_series_is_named(s: BrowseModel)
    requires
        s.place.series is Some,
    ensures
        s.top_row() == seq![
            (" "@, Tone::Raw),
            (" "@ + title_text(*s.place.series->0) + " "@, Tone::Badge),
        ],
{
}

/// An error is shown before a notice, and a row is kept for what is shown.
pub proof fn law_errors_are_shown_before_notices(s: BrowseModel)
    ensures
        s.status.error is Some ==> s.message() == Some(("Error: "@ + s.status.error->0, Tone::Error)),
        s.status.error is None && s.status.notice is Some ==> s.message() == Some(
            (s.status.notice->0@, Tone::Accent),
        ),
        s.message() is Some <==> s.layout().message_rows == 1,
        s.message() is None <==> s.layout().message_rows == 0,
{
}

} // verus!
