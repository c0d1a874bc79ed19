//! What is searched for and filtered on the Jellyfin browse screen, and what it
//! makes of the server's answers.

use std::sync::Arc;
use vstd::prelude::*;

use crate::app::KeyCode;
use crate::apps::jellyfin::actions::{
    asks_for_tab, lemma_filter_key, lemma_list_key, lemma_search_key, on_a_tab, press,
};
use crate::apps::jellyfin::browse::SeriesView;
use crate::apps::jellyfin::library::{seasons_of, Tab};
use crate::apps::jellyfin::state::{matching, of_season, BrowseModel};
use crate::jellyfin::{description_text, title_text, Error, MediaItem};
use crate::text::{lowercase, occurs};

verus! {

/// What is typed into the search box is searched for when it is accepted; what
/// was found before is dropped, and an empty box searches for nothing.
pub proof fn law_what_is_typed_is_searched_for(s: BrowseModel, c: char)
    requires
        s.inputs.search_focused,
        s.place.tab == Tab::Search,
        s.place.series is None,
    ensures
        ({
            let typed = press(s, KeyCode::Char(c));
            &&& typed.inputs.search.value == s.inputs.search.value.push(c)
            &&& typed.inputs.search_focused
            &&& typed.outbox == s.outbox
            &&& typed.lists == s.lists
        }),
        ({
            let t = press(s, KeyCode::Enter);
            &&& !t.inputs.search_focused
            &&& t.inputs.search.value == s.inputs.search.value
            &&& t.lists.cursor == 0
            &&& t.outbox.len() == s.outbox.len() + 1
            &&& asks_for_tab(
                t.outbox.last(),
                t.gens.fetch,
                Tab::Search,
                s.inputs.search.value,
            )
            &&& s.inputs.search.value.len() > 0 ==> t.lists.items.len() == 0
        }),
        ({
            let t = press(s, KeyCode::Esc);
            &&& !t.inputs.search_focused
            &&& t.outbox == s.outbox
            &&& t.lists == s.lists
            &&& t.inputs.search.value == s.inputs.search.value
        }),
{
    lemma_search_key(s, KeyCode::Char(c));
    lemma_search_key(s, KeyCode::Enter);
    lemma_search_key(s, KeyCode::Esc);
}

/// `/` opens the search box on the search tab and the filter elsewhere.
pub proof fn law_slash_searches_or_filters(s: BrowseModel)
    requires
        on_a_tab(s),
        s.place.tab != Tab::Libraries,
    ensures
        ({
            let t = press(s, KeyCode::Char('/'));
            &&& t.inputs.search_focused == (s.place.tab == Tab::Search)
            &&& t.inputs.filter_focused == (s.place.tab != Tab::Search)
            &&& t.inputs.filter_focused ==> t.inputs.filter_active
            &&& t.inputs.filter.value == s.inputs.filter.value
            &&& t.inputs.search.value == s.inputs.search.value
            &&& t.outbox == s.outbox
            &&& t.lists == s.lists
            &&& t.place == s.place
        }),
{
    lemma_list_key(s, KeyCode::Char('/'));
}

/// What is typed into the filter of a tab's list narrows the list at once, and
/// leaving it shows the whole list again.
pub proof fn law_what_is_typed_filters_the_list(s: BrowseModel, c: char)
    requires
        s.inputs.filter_focused,
        s.inputs.filter_active,
        !s.inputs.search_focused,
        s.place.series is None,
        s.place.tab != Tab::Libraries,
    ensures
        ({
            let typed = press(s, KeyCode::Char(c));
            &&& typed.inputs.filter.value == s.inputs.filter.value.push(c)
            &&& typed.lists.items == matching(
                s.lists.all_items,
                lowercase(s.inputs.filter.value.push(c)),
            )
            &&& typed.lists.all_items == s.lists.all_items
            &&& typed.outbox == s.outbox
        }),
        ({
            let left = press(s, KeyCode::Esc);
            &&& !left.inputs.filter_active && !left.inputs.filter_focused
            &&& left.inputs.filter.value.len() == 0
            &&& left.lists.items == s.lists.all_items
            &&& left.outbox == s.outbox
        }),
        ({
            let kept = press(s, KeyCode::Enter);
            &&& kept.inputs.filter_active && !kept.inputs.filter_focused
            &&& kept.inputs.filter.value == s.inputs.filter.value
            &&& kept.lists == s.lists
            &&& kept.outbox == s.outbox
        }),
{
    lemma_filter_key(s, KeyCode::Char(c));
    lemma_filter_key(s, KeyCode::Enter);
    lemma_filter_key(s, KeyCode::Esc);
}

/// Whether the needle is in an item's title or in the line below it, once these
/// are in lowercase.
pub open spec fn mentions(item: MediaItem, needle: Seq<char>) -> bool {
    occurs(lowercase(title_text(item)), needle) || occurs(
        lowercase(description_text(item)),
        needle,
    )
}

/// A list shows what lies at the places of another, in order, and those are the
/// places of the items that mention the needle.
pub open spec fn is_filtered(
    shown: Seq<Arc<MediaItem>>,
    all: Seq<Arc<MediaItem>>,
    needle: Seq<char>,
    places: Seq<int>,
) -> bool {
    &&& places.len() == shown.len()
    &&& forall|k: int|
        0 <= k < places.len() ==> 0 <= #[trigger] places[k] < all.len() && shown[k]
            == all[places[k]] && mentions(*all[places[k]], needle)
    &&& forall|j: int, k: int|
        0 <= j < k < places.len() ==> #[trigger] places[j] < #[trigger] places[k]
    &&& forall|i: int|
        0 <= i < all.len() && mentions(*#[trigger] all[i], needle) ==> places.contains(i)
}

/// A filter leaves exactly the items that mention what was typed, each once and
/// in the order of the list.
pub proof fn law_the_filter_leaves_what_mentions_it(all: Seq<Arc<MediaItem>>, needle: Seq<char>)
    ensures
        exists|places: Seq<int>| is_filtered(matching(all, needle), all, needle, places),
{
    let places = lemma_filtered(all, needle);
    assert(is_filtered(matching(all, needle), all, needle, places));
}

proof fn lemma_filtered(all: Seq<Arc<MediaItem>>, needle: Seq<char>) -> (places: Seq<int>)
    ensures
        is_filtered(matching(all, needle), all, needle, places),
    decreases all.len(),
{
    if all.len() == 0 {
        Seq::empty()
    } else {
        let rest = all.drop_last();
        let before = lemma_filtered(rest, needle);
        let shown = matching(all, needle);
        let places = if shown.len() > before.len() {
            before.push(all.len() - 1)
        } else {
            before
        };
        assert forall|i: int| 0 <= i < rest.len() implies rest[i] == #[trigger] all[i] by {}
        assert forall|k: int| 0 <= k < places.len() implies 0 <= #[trigger] places[k] < all.len()
            && shown[k] == all[places[k]] && mentions(*all[places[k]], needle) by {
            if k < before.len() {
                assert(places[k] == before[k]);
                assert(rest[before[k]] == all[before[k]]);
            }
        }
        assert forall|i: int| 0 <= i < all.len() && mentions(
            *#[trigger] all[i],
            needle,
        ) implies places.contains(i) by {
            if i < rest.len() {
                assert(rest[i] == all[i]);
                let k = choose|k: int| 0 <= k < before.len() && before[k] == i;
                assert(places[k] == i);
            } else {
                assert(places[places.len() - 1] == i);
            }
        }
        places
    }
}

// Answers.

/// A list that arrives is the list that is shown, whole; the episodes of an
/// open series become its seasons, and the season on screen keeps to its own.
pub proof fn law_the_fetched_list_is_shown(s: BrowseModel, list: Seq<Arc<MediaItem>>)
    ensures
        ({
            let t = s.after_items(s.gens.fetch, Ok(list));
            &&& t.lists.all_items == list
            &&& !t.status.loading
            &&& t.place == s.place
            &&& t.outbox == s.outbox
            &&& s.place.series is None ==> t.lists.items == list && !t.inputs.filter_active
            &&& s.place.series is Some ==> t.lists.seasons == seasons_of(list)
            &&& s.place.series is Some && s.place.view == SeriesView::Episodes
                && s.lists.season_cursor < seasons_of(list).len() ==> t.lists.items == of_season(
                list,
                seasons_of(list)[s.lists.season_cursor as int].number,
            )
        }),
{
}

/// The first page of a library replaces its list and a later one continues it;
/// the server's count is kept, and nothing more is asked for without a filter.
pub proof fn law_the_fetched_page_is_shown(
    s: BrowseModel,
    start_index: usize,
    list: Seq<Arc<MediaItem>>,
    total: i32,
)
    requires
        !s.inputs.filter_active,
    ensures
        ({
            let t = s.after_page(s.gens.fetch, start_index, 100, Ok((list, total)));
            &&& t.lists.all_items == if start_index == 0 {
                list
            } else {
                s.lists.all_items + list
            }
            &&& t.lists.items == t.lists.all_items
            &&& t.lists.total == if total > 0 {
                total as usize
            } else {
                0
            }
            &&& !t.status.loading
            &&& t.outbox == s.outbox
            &&& t.place == s.place
        }),
{
}

/// What fails is told in the server's words and leaves the list as it was.
pub proof fn law_failures_are_told(s: BrowseModel, start_index: usize, err: Error)
    requires
        !(err is Unauthorized),
        !s.inputs.filter_active,
    ensures
        ({
            let t = s.after_items(s.gens.fetch, Err(err));
            t.status.error == Some(err.text()) && t.lists == s.lists && !t.status.loading
                && t.outbox == s.outbox && t.place == s.place
        }),
        ({
            let t = s.after_page(s.gens.fetch, start_index, 100, Err(err));
            t.status.error == Some(err.text()) && t.lists == s.lists && !t.status.loading
                && t.outbox == s.outbox && t.place == s.place
        }),
{
}

} // verus!
