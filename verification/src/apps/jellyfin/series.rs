//! What opens and what plays on the Jellyfin browse screen: the item under the
//! cursor, the seasons of a series and their episodes.

use std::sync::Arc;
use vstd::prelude::*;

use crate::app::KeyCode;
use crate::apps::jellyfin::actions::{
    asks_for_tab, is_a_video, lemma_handed_on_key, lemma_list_key, lemma_series_key, on_a_tab,
    plain, press, unobstructed, was_played,
};
use crate::apps::jellyfin::browse::{BrowseAction, SeriesView};
use crate::apps::jellyfin::library::{episodes_in, first_seen, seasons_of, watched_in, Tab};
use crate::apps::jellyfin::msg::{RequestModel, SourceModel};
use crate::apps::jellyfin::state::{of_season, BrowseModel};
use crate::jellyfin::{ItemKind, MediaItem};

verus! {

/// Opening a series asks for its episodes and shows its seasons, none of them
/// yet; opening anything that is played plays exactly that and leaves the
/// screen as it is.
pub proof fn law_the_highlighted_item_is_opened_or_played(s: BrowseModel, open: KeyCode)
    requires
        on_a_tab(s),
        s.place.tab != Tab::Libraries,
        s.lists.cursor < s.lists.items.len(),
        open == KeyCode::Enter || open == KeyCode::Char(' '),
    ensures
        ({
            let item = s.lists.items[s.lists.cursor as int];
            let t = press(s, open);
            let action = s.key_action(plain(open));
            &&& item.kind == ItemKind::Series ==> {
                &&& action is None
                &&& t.place.series == Some(item)
                &&& t.place.view == SeriesView::Seasons
                &&& t.place.tab == s.place.tab
                &&& t.lists.seasons.len() == 0
                &&& t.lists.season_cursor == 0
                &&& t.outbox == s.outbox.push(
                    RequestModel::Items {
                        fetch_gen: t.gens.fetch,
                        source: SourceModel::Episodes(item),
                    },
                )
            }
            &&& is_a_video(*item) ==> action == Some(BrowseAction::Play(item)) && t == s
            &&& item.kind == ItemKind::BoxSet || item.kind == ItemKind::CollectionFolder
                ==> action is None && t == s
        }),
{
    if s.list_action(open) is None {
        lemma_list_key(s, open);
    } else {
        lemma_handed_on_key(s, open);
    }
}

/// In a series, a season opens on its own episodes, and an episode under the
/// cursor is what is played.
pub proof fn law_seasons_open_and_episodes_play(s: BrowseModel, open: KeyCode)
    requires
        unobstructed(s),
        s.place.series is Some,
        open == KeyCode::Enter || open == KeyCode::Char(' '),
    ensures
        s.place.view == SeriesView::Seasons ==> {
            let t = press(s, open);
            &&& s.key_action(plain(open)) is None
            &&& s.lists.season_cursor < s.lists.seasons.len() ==> {
                &&& t.place.view == SeriesView::Episodes
                &&& t.place.series == s.place.series
                &&& t.lists.cursor == 0
                &&& t.lists.items == of_season(
                    s.lists.all_items,
                    s.lists.seasons[s.lists.season_cursor as int].number,
                )
                &&& t.outbox == s.outbox
            }
            &&& s.lists.season_cursor >= s.lists.seasons.len() ==> t == s
        },
        s.place.view == SeriesView::Episodes && s.lists.cursor < s.lists.items.len() ==> {
            &&& s.key_action(plain(open)) == Some(
                BrowseAction::Play(s.lists.items[s.lists.cursor as int]),
            )
            &&& press(s, open) == s
        },
        s.place.view == SeriesView::EpisodeInfo && s.lists.cursor < s.lists.items.len()
            ==> s.key_action(plain(KeyCode::Enter)) == Some(
            BrowseAction::Play(s.lists.items[s.lists.cursor as int]),
        ),
{
    lemma_series_key(s, open);
}

/// A season's episodes are those with its number, in the order of the series.
pub proof fn law_a_season_lists_its_episodes_in_order(
    all: Seq<Arc<MediaItem>>,
    number: Option<i32>,
)
    ensures
        exists|places: Seq<int>| is_season_selection(of_season(all, number), all, number, places),
{
    let places = lemma_season_selection(all, number);
    assert(is_season_selection(of_season(all, number), all, number, places));
}

/// A list shows what lies at the places of another, in order, and those are the
/// places of the episodes with the number.
pub open spec fn is_season_selection(
    shown: Seq<Arc<MediaItem>>,
    all: Seq<Arc<MediaItem>>,
    number: Option<i32>,
    places: Seq<int>,
) -> bool {
    &&& places.len() == shown.len()
    &&& forall|k: int|
        0 <= k < places.len() ==> 0 <= #[trigger] places[k] < all.len() && shown[k]
            == all[places[k]] && all[places[k]].parent_index_number == number
    &&& forall|j: int, k: int|
        0 <= j < k < places.len() ==> #[trigger] places[j] < #[trigger] places[k]
    &&& forall|i: int|
        0 <= i < all.len() && (#[trigger] all[i]).parent_index_number == number ==> places.contains(
            i,
        )
}

proof fn lemma_season_selection(all: Seq<Arc<MediaItem>>, number: Option<i32>) -> (places: Seq<int>)
    ensures
        is_season_selection(of_season(all, number), all, number, places),
    decreases all.len(),
{
    if all.len() == 0 {
        Seq::empty()
    } else {
        let rest = all.drop_last();
        let before = lemma_season_selection(rest, number);
        let shown = of_season(all, number);
        let places = if shown.len() > before.len() {
            before.push(all.len() - 1)
        } else {
            before
        };
        assert forall|i: int| 0 <= i < rest.len() implies rest[i] == #[trigger] all[i] by {}
        assert forall|k: int| 0 <= k < places.len() implies 0 <= #[trigger] places[k] < all.len()
            && shown[k] == all[places[k]] && all[places[k]].parent_index_number == number by {
            if k < before.len() {
                assert(places[k] == before[k]);
                assert(rest[before[k]] == all[before[k]]);
            }
        }
        assert forall|i: int| 0 <= i < all.len() && (#[trigger] all[i]).parent_index_number
            == number implies places.contains(i) by {
            if i < rest.len() {
                assert(rest[i] == all[i]);
                let k = choose|k: int| 0 <= k < before.len() && before[k] == i;
                assert(places[k] == i);
            } else {
                assert(places[places.len() - 1] == i);
            }
        }
        places
    }
}

/// A season's row tells how many episodes it has and how many of them were
/// played, and every number that an episode has is a row's.
pub proof fn law_season_rows_count_their_episodes(
    items: Seq<Arc<MediaItem>>,
    at: int,
    row: int,
)
    requires
        items.len() <= usize::MAX,
        0 <= at < items.len(),
        0 <= row < seasons_of(items).len(),
    ensures
        ({
            let season = seasons_of(items)[row];
            let all = Set::new(
                |i: int| 0 <= i < items.len() && items[i].parent_index_number == season.number,
            );
            let seen = Set::new(
                |i: int|
                    0 <= i < items.len() && items[i].parent_index_number == season.number
                        && was_played(*items[i]),
            );
            &&& all.finite() && season.episode_count == all.len()
            &&& seen.finite() && season.watched_count == seen.len()
        }),
        exists|k: int|
            0 <= k < seasons_of(items).len() && (#[trigger] seasons_of(items)[k]).number
                == items[at].parent_index_number,
{
    let number = first_seen(items)[row];
    lemma_counts(items, number);
    lemma_every_number_is_seen(items, at);
    let k = choose|k: int|
        0 <= k < first_seen(items).len() && first_seen(items)[k] == items[at].parent_index_number;
    assert(seasons_of(items)[k].number == items[at].parent_index_number);
}

proof fn lemma_counts(items: Seq<Arc<MediaItem>>, number: Option<i32>)
    ensures
        ({
            let all = Set::new(
                |i: int| 0 <= i < items.len() && items[i].parent_index_number == number,
            );
            let seen = Set::new(
                |i: int|
                    0 <= i < items.len() && items[i].parent_index_number == number && was_played(
                        *items[i],
                    ),
            );
            &&& all.finite() && episodes_in(items, number) == all.len()
            &&& seen.finite() && watched_in(items, number) == seen.len()
            &&& all.len() <= items.len()
            &&& seen.len() <= items.len()
        }),
    decreases items.len(),
{
    let all = Set::new(|i: int| 0 <= i < items.len() && items[i].parent_index_number == number);
    let seen = Set::new(
        |i: int|
            0 <= i < items.len() && items[i].parent_index_number == number && was_played(*items[i]),
    );
    if items.len() == 0 {
        assert(all =~= Set::empty());
        assert(seen =~= Set::empty());
    } else {
        let rest = items.drop_last();
        let last = items.len() - 1;
        lemma_counts(rest, number);
        let all_before = Set::new(
            |i: int| 0 <= i < rest.len() && rest[i].parent_index_number == number,
        );
        let seen_before = Set::new(
            |i: int|
                0 <= i < rest.len() && rest[i].parent_index_number == number && was_played(
                    *rest[i],
                ),
        );
        assert forall|i: int| 0 <= i < rest.len() implies rest[i] == #[trigger] items[i] by {}
        if items[last].parent_index_number == number {
            assert(all =~= all_before.insert(last));
        } else {
            assert(all =~= all_before);
        }
        if seen.contains(last) {
            assert(seen =~= seen_before.insert(last));
        } else {
            assert(seen =~= seen_before);
        }
    }
}

proof fn lemma_every_number_is_seen(items: Seq<Arc<MediaItem>>, at: int)
    requires
        0 <= at < items.len(),
    ensures
        first_seen(items).contains(items[at].parent_index_number),
    decreases items.len(),
{
    let rest = items.drop_last();
    let (before, after) = (first_seen(rest), first_seen(items));
    if at < rest.len() {
        lemma_every_number_is_seen(rest, at);
        let k = choose|k: int|
            0 <= k < before.len() && before[k] == rest[at].parent_index_number;
        assert(after[k] == before[k]);
    } else if !before.contains(items[at].parent_index_number) {
        assert(after[after.len() - 1] == items[at].parent_index_number);
    }
}

/// Going back from the episodes shows the seasons, and from the seasons the
/// list of the tab, which is asked for again; nothing of the series stays.
pub proof fn law_going_back_leaves_the_series(s: BrowseModel, back: KeyCode)
    requires
        unobstructed(s),
        s.place.series is Some,
        s.place.level is Root,
        s.place.tab != Tab::Libraries,
        back == KeyCode::Esc || back == KeyCode::Backspace,
    ensures
        ({
            let t = press(s, back);
            match s.place.view {
                SeriesView::EpisodeInfo => {
                    &&& t.place.view == SeriesView::Episodes
                    &&& t.place.series == s.place.series
                    &&& t.lists == s.lists
                    &&& t.outbox == s.outbox
                },
                SeriesView::Episodes => {
                    &&& t.place.view == SeriesView::Seasons
                    &&& t.place.series == s.place.series
                    &&& t.lists.seasons == s.lists.seasons
                    &&& t.lists.season_cursor == s.lists.season_cursor
                    &&& t.outbox == s.outbox
                },
                SeriesView::Seasons => {
                    &&& t.place.series is None
                    &&& t.place.tab == s.place.tab
                    &&& t.lists.items.len() == 0
                    &&& t.lists.seasons.len() == 0
                    &&& t.outbox.len() == s.outbox.len() + 1
                    &&& asks_for_tab(
                        t.outbox.last(),
                        t.gens.fetch,
                        s.place.tab,
                        s.inputs.search.value,
                    )
                },
            }
        }),
{
    lemma_series_key(s, back);
}

} // verus!
