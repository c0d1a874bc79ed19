//! What the keys of the Jellyfin browse screen are for: which list each tab asks
//! for, and what is marked as watched.

use vstd::prelude::*;

use crate::app::{KeyCode, KeyEvent, KeyModifiers};
use crate::apps::jellyfin::browse::SeriesView;
use crate::apps::jellyfin::library::Tab;
use crate::apps::jellyfin::msg::{RequestModel, SourceModel};
use crate::apps::jellyfin::state::BrowseModel;
use crate::jellyfin::{ItemKind, MediaItem};

verus! {

/// A key with nothing held.
pub open spec fn plain(code: KeyCode) -> KeyEvent {
    KeyEvent {
        code,
        modifiers: KeyModifiers { shift: false, control: false, alt: false, other: false },
    }
}

/// The screen after a key with nothing held.
#[verifier::opaque]
pub open spec fn press(s: BrowseModel, code: KeyCode) -> BrowseModel {
    s.after_key(plain(code))
}

/// No field, menu or panel takes the keys.
pub open spec fn unobstructed(s: BrowseModel) -> bool {
    &&& !s.inputs.search_focused
    &&& !s.inputs.filter_focused
    &&& s.popups.sort_menu is None
    &&& !s.popups.info_open
}

/// A tab's own list is on screen: no series and no library is open.
pub open spec fn on_a_tab(s: BrowseModel) -> bool {
    &&& unobstructed(s)
    &&& s.place.series is None
    &&& s.place.level is Root
}

/// The request for what a tab lists.
pub open spec fn asks_for_tab(
    request: RequestModel,
    gen: u64,
    tab: Tab,
    term: Seq<char>,
) -> bool {
    match tab {
        Tab::Resume => request == (RequestModel::Items {
            fetch_gen: gen,
            source: SourceModel::Resume,
        }),
        Tab::NextUp => request == (RequestModel::Items {
            fetch_gen: gen,
            source: SourceModel::NextUp,
        }),
        Tab::RecentlyAdded => request == (RequestModel::Items {
            fetch_gen: gen,
            source: SourceModel::RecentlyAdded,
        }),
        Tab::Libraries => request == (RequestModel::LibraryPage {
            fetch_gen: gen,
            start_index: 0,
            limit: 100,
            delay_ms: 0,
            query: None,
        }),
        Tab::Search => request == (RequestModel::Items {
            fetch_gen: gen,
            source: if term.len() > 0 {
                SourceModel::Search(term)
            } else {
                SourceModel::Nothing
            },
        }),
    }
}

/// The tab to the right, the first one behind the last.
pub open spec fn right_of(tab: Tab) -> Tab {
    match tab {
        Tab::Resume => Tab::NextUp,
        Tab::NextUp => Tab::RecentlyAdded,
        Tab::RecentlyAdded => Tab::Libraries,
        Tab::Libraries => Tab::Search,
        Tab::Search => Tab::Resume,
    }
}

/// A tab freshly opened: its own list is asked for, and nothing of the list
/// before it is left.
pub open spec fn opened_tab(t: BrowseModel, s: BrowseModel, tab: Tab) -> bool {
    &&& t.place.tab == tab
    &&& t.place.series is None
    &&& t.place.level is Root
    &&& t.lists.items.len() == 0
    &&& t.lists.all_items.len() == 0
    &&& t.lists.cursor == 0
    &&& t.status.loading
    &&& t.outbox.len() == s.outbox.len() + 1
    &&& t.outbox.drop_last() == s.outbox
    &&& asks_for_tab(t.outbox.last(), t.gens.fetch, tab, s.inputs.search.value)
}

/// Whether the server says that an item was played.
pub open spec fn was_played(item: MediaItem) -> bool {
    match item.user_data {
        Some(data) => data.played == Some(true),
        None => false,
    }
}

/// Something that is played by itself.
pub open spec fn is_a_video(item: MediaItem) -> bool {
    item.kind == ItemKind::Movie || item.kind == ItemKind::Episode || item.kind == ItemKind::Video
}

/// Going right opens the next tab, which asks for its own list.
pub proof fn law_going_right_opens_the_next_tab(s: BrowseModel, right: KeyCode)
    requires
        on_a_tab(s),
        right == KeyCode::Tab || right == KeyCode::Right || right == KeyCode::Char('l'),
    ensures
        opened_tab(press(s, right), s, right_of(s.place.tab)),
{
    lemma_right_key(s, right);
    lemma_left_of(s.place.tab);
    lemma_tab_opens(s, right_of(s.place.tab));
}

/// Going left opens the tab before, the one whose next tab this is, and it asks
/// for its own list.
pub proof fn law_going_left_opens_the_tab_before(s: BrowseModel, left: KeyCode)
    requires
        on_a_tab(s),
        left == KeyCode::BackTab || left == KeyCode::Left || left == KeyCode::Char('h'),
    ensures
        right_of(press(s, left).place.tab) == s.place.tab,
        opened_tab(press(s, left), s, press(s, left).place.tab),
{
    let tab = Tab::at(s.place.tab.place() + 4);
    lemma_left_key(s, left);
    lemma_left_of(s.place.tab);
    lemma_tab_opens(s, tab);
}

proof fn lemma_left_of(tab: Tab)
    ensures
        right_of(Tab::at(tab.place() + 4)) == tab,
        Tab::at(tab.place() + 1) == right_of(tab),
{
}

proof fn lemma_left_key(s: BrowseModel, left: KeyCode)
    requires
        on_a_tab(s),
        left == KeyCode::BackTab || left == KeyCode::Left || left == KeyCode::Char('h'),
    ensures
        press(s, left) == s.on_tab(Tab::at(s.place.tab.place() + 4)),
{
    lemma_list_key(s, left);
}

proof fn lemma_right_key(s: BrowseModel, right: KeyCode)
    requires
        on_a_tab(s),
        right == KeyCode::Tab || right == KeyCode::Right || right == KeyCode::Char('l'),
    ensures
        press(s, right) == s.on_tab(Tab::at(s.place.tab.place() + 1)),
{
    lemma_list_key(s, right);
}

/// A key that hands nothing on goes to the open list.
pub proof fn lemma_list_key(s: BrowseModel, code: KeyCode)
    requires
        unobstructed(s),
        s.place.series is None,
        s.list_action(code) is None,
    ensures
        press(s, code) == s.list_key(code).maybe_fetch_next_page(),
{
    reveal(press);
}

/// A key that hands something on leaves the list as it is.
pub proof fn lemma_handed_on_key(s: BrowseModel, code: KeyCode)
    requires
        unobstructed(s),
        s.place.series is None,
        s.list_action(code) is Some,
    ensures
        press(s, code) == s,
{
    reveal(press);
}

/// In a series the keys are the series' own.
pub proof fn lemma_series_key(s: BrowseModel, code: KeyCode)
    requires
        unobstructed(s),
        s.place.series is Some,
    ensures
        press(s, code) == s.series_key(code),
{
    reveal(press);
}

/// While the search row is edited the keys are typed into it.
pub proof fn lemma_search_key(s: BrowseModel, code: KeyCode)
    requires
        s.inputs.search_focused,
    ensures
        press(s, code) == s.search_key(plain(code)),
{
    reveal(press);
}

/// While the filter row is edited the keys are typed into it.
pub proof fn lemma_filter_key(s: BrowseModel, code: KeyCode)
    requires
        !s.inputs.search_focused,
        s.inputs.filter_focused,
    ensures
        press(s, code) == s.filter_key(plain(code)),
{
    reveal(press);
}

proof fn lemma_tab_opens(s: BrowseModel, tab: Tab)
    requires
        on_a_tab(s),
    ensures
        opened_tab(s.on_tab(tab), s, tab),
        s.on_tab(tab).place.level is Root,
{
    assert(s.on_tab(tab).outbox.drop_last() =~= s.outbox);
}

/// Refreshing a tab asks for the tab's own list again, and keeps what is shown
/// until it arrives.
pub proof fn law_refreshing_asks_for_the_same_list(s: BrowseModel)
    requires
        on_a_tab(s),
    ensures
        ({
            let t = press(s, KeyCode::Char('r'));
            &&& t.lists == s.lists
            &&& t.place == s.place
            &&& t.outbox.len() == s.outbox.len() + 1
            &&& t.outbox.drop_last() == s.outbox
            &&& asks_for_tab(
                t.outbox.last(),
                t.gens.fetch,
                s.place.tab,
                s.inputs.search.value,
            )
        }),
{
    lemma_list_key(s, KeyCode::Char('r'));
    assert(press(s, KeyCode::Char('r')).outbox.drop_last() =~= s.outbox);
}

/// What the screen starts with is the Resume tab.
pub proof fn law_the_resume_tab_comes_first(gen_counter: u64)
    ensures
        ({
            let s = BrowseModel::initial(gen_counter).fetch();
            &&& s.place.tab == Tab::Resume
            &&& s.place.series is None
            &&& s.outbox.len() == 1
            &&& asks_for_tab(s.outbox[0], s.gens.fetch, Tab::Resume, Seq::empty())
        }),
{
}

// Watched or not.

/// `w` on something that is played asks for the opposite of what the server
/// says of it: a watched item is marked unwatched and an unwatched one watched.
/// The item is the one under the cursor, and it is asked for once.
pub proof fn law_w_flips_the_watched_flag(s: BrowseModel)
    requires
        unobstructed(s),
        s.place.series is None || s.place.view == SeriesView::Episodes,
        s.lists.cursor < s.lists.items.len(),
        is_a_video(*s.lists.items[s.lists.cursor as int]),
    ensures
        ({
            let item = s.lists.items[s.lists.cursor as int];
            let t = press(s, KeyCode::Char('w'));
            &&& t.outbox == s.outbox.push(
                RequestModel::SetWatched {
                    fetch_gen: s.gens.fetch,
                    item_id: item.id@,
                    watched: !was_played(*item),
                },
            )
            &&& t.lists == s.lists
            &&& t.place == s.place
            &&& t.gens == s.gens
            &&& t.status.loading
            &&& s.key_action(plain(KeyCode::Char('w'))) is None
        }),
{
    if s.place.series is None {
        lemma_list_key(s, KeyCode::Char('w'));
    } else {
        lemma_series_key(s, KeyCode::Char('w'));
    }
}

/// A change of the flag that took is shown by fetching the list anew, one that
/// the user has moved on from by nothing.
pub proof fn law_a_flipped_flag_is_fetched_anew(s: BrowseModel, gen: u64)
    requires
        on_a_tab(s),
    ensures
        ({
            let t = s.after_toggle(s.gens.fetch, Ok(()));
            &&& t.lists == s.lists
            &&& t.place == s.place
            &&& t.outbox.len() == s.outbox.len() + 1
            &&& asks_for_tab(
                t.outbox.last(),
                t.gens.fetch,
                s.place.tab,
                s.inputs.search.value,
            )
        }),
        gen != s.gens.fetch ==> s.after_toggle(gen, Ok(())) == s,
{
}

} // verus!
