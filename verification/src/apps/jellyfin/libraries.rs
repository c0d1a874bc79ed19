//! How the libraries are listed on the Jellyfin browse screen: level by level,
//! and in an order.

use vstd::prelude::*;

use crate::app::KeyCode;
use crate::apps::jellyfin::actions::{
    asks_for_tab, is_a_video, lemma_handed_on_key, lemma_list_key, on_a_tab, plain, press,
    unobstructed,
};
use crate::apps::jellyfin::browse::BrowseAction;
use crate::apps::jellyfin::library::{LibraryKind, LibraryLevel, Sort, SortDir, SortField, Tab};
use crate::apps::jellyfin::msg::{RequestModel, SourceModel};
use crate::apps::jellyfin::state::BrowseModel;
use crate::jellyfin::{ItemKind, MediaItem, QueryModel};

verus! {

/// The words by which the server is asked for an order.
pub open spec fn order_words(sort: Sort) -> (&'static str, &'static str) {
    (
        match sort.field {
            SortField::Name => "SortName",
            SortField::DateAdded => "DateCreated",
            SortField::ReleaseDate => "PremiereDate",
        },
        match sort.dir {
            SortDir::Ascending => "Ascending",
            SortDir::Descending => "Descending",
        },
    )
}

/// What was added last comes first.
pub open spec fn newest_first() -> Sort {
    Sort { field: SortField::DateAdded, dir: SortDir::Descending }
}

/// The page of a library that is asked for: of this library, everything of its
/// kind wherever it lies, or its direct children where it holds other things.
pub open spec fn asks_for_library(
    request: RequestModel,
    gen: u64,
    library: MediaItem,
    start_index: usize,
    limit: usize,
    term: Option<Seq<char>>,
) -> bool {
    let holds = |what: Seq<char>| library.collection_type is Some && library.collection_type->0@
        == what;
    request == (RequestModel::LibraryPage {
        fetch_gen: gen,
        start_index,
        limit,
        delay_ms: 0,
        query: Some(
            QueryModel {
                parent_id: library.id@,
                include_item_types: if holds("movies"@) {
                    Some("Movie")
                } else if holds("tvshows"@) {
                    Some("Series")
                } else {
                    None
                },
                recursive: holds("movies"@) || holds("tvshows"@),
                start_index,
                limit,
                sort_by: "DateCreated",
                sort_order: "Descending",
                search_term: term,
            },
        ),
    })
}

/// Opening a library lists that library from its first page; its kind is told
/// by what it holds.
pub proof fn law_the_highlighted_library_is_listed(s: BrowseModel, open: KeyCode)
    requires
        on_a_tab(s),
        s.place.tab == Tab::Libraries,
        s.lists.cursor < s.lists.items.len(),
        open == KeyCode::Enter || open == KeyCode::Char(' '),
    ensures
        ({
            let library = s.lists.items[s.lists.cursor as int];
            let t = press(s, open);
            let holds = |what: Seq<char>| library.collection_type is Some
                && library.collection_type->0@ == what;
            &&& s.key_action(plain(open)) is None
            &&& t.place.level matches LibraryLevel::Library { library: shown, kind }
            &&& shown == library
            &&& (kind == LibraryKind::Movies <==> holds("movies"@))
            &&& (kind == LibraryKind::Shows <==> holds("tvshows"@))
            &&& t.lists.items.len() == 0
            &&& t.lists.all_items.len() == 0
            &&& t.lists.cursor == 0
            &&& !t.inputs.filter_active
            &&& t.outbox.len() == s.outbox.len() + 1
            &&& t.outbox.drop_last() == s.outbox
            &&& asks_for_library(t.outbox.last(), t.gens.fetch, *library, 0, 100, None)
        }),
{
    if s.list_action(open) is None {
        lemma_list_key(s, open);
    } else {
        lemma_handed_on_key(s, open);
    }
    reveal_strlit("movies");
    reveal_strlit("tvshows");
    assert("movies"@.len() == 6 && "tvshows"@.len() == 7);
    assert(press(s, open).outbox.drop_last() =~= s.outbox);
}

/// In a library of other things a collection opens on its own videos, newest
/// first; a movie plays and a series opens.
pub proof fn law_the_highlighted_entry_of_a_library_opens(s: BrowseModel, open: KeyCode)
    requires
        unobstructed(s),
        s.place.tab == Tab::Libraries,
        s.place.series is None,
        s.place.level is Library,
        s.lists.cursor < s.lists.items.len(),
        open == KeyCode::Enter || open == KeyCode::Char(' '),
    ensures
        ({
            let item = s.lists.items[s.lists.cursor as int];
            let library = s.place.level->Library_library;
            let t = press(s, open);
            &&& s.place.level->Library_kind == LibraryKind::Other && item.kind == ItemKind::BoxSet
                ==> {
                &&& t.place.level matches LibraryLevel::Collection { library: around, collection }
                &&& around == library
                &&& collection == item
                &&& t.popups.collection_sort == newest_first()
                &&& t.outbox.last() == (RequestModel::LibraryPage {
                    fetch_gen: t.gens.fetch,
                    start_index: 0,
                    limit: 100,
                    delay_ms: 0,
                    query: Some(
                        QueryModel {
                            parent_id: item.id@,
                            include_item_types: None,
                            recursive: false,
                            start_index: 0,
                            limit: 100,
                            sort_by: "DateCreated",
                            sort_order: "Descending",
                            search_term: None,
                        },
                    ),
                })
            }
            &&& is_a_video(*item) ==> s.key_action(plain(open)) == Some(BrowseAction::Play(item))
                && t == s
            &&& item.kind == ItemKind::Series ==> t.place.series == Some(item)
                && s.key_action(plain(open)) is None && t.outbox.last() == (RequestModel::Items {
                fetch_gen: t.gens.fetch,
                source: SourceModel::Episodes(item),
            })
        }),
{
    if s.list_action(open) is None {
        lemma_list_key(s, open);
    } else {
        lemma_handed_on_key(s, open);
    }
}

/// Going back leads from a collection to its library and from a library to the
/// list of libraries, each asked for from its first page.
pub proof fn law_going_back_leads_up_the_libraries(s: BrowseModel, back: KeyCode)
    requires
        unobstructed(s),
        s.place.tab == Tab::Libraries,
        s.place.series is None,
        !s.inputs.filter_active,
        back == KeyCode::Esc || back == KeyCode::Backspace,
    ensures
        ({
            let t = press(s, back);
            match s.place.level {
                LibraryLevel::Root => t == s,
                LibraryLevel::Library { .. } => {
                    &&& t.place.level is Root
                    &&& t.lists.items.len() == 0
                    &&& asks_for_tab(t.outbox.last(), t.gens.fetch, Tab::Libraries, Seq::empty())
                },
                LibraryLevel::Collection { library, .. } => {
                    &&& t.place.level == (LibraryLevel::Library {
                        library,
                        kind: LibraryKind::Other,
                    })
                    &&& t.lists.items.len() == 0
                    &&& asks_for_library(t.outbox.last(), t.gens.fetch, *library, 0, 100, None)
                },
            }
        }),
{
    lemma_list_key(s, back);
}

/// The orders that the menu of a collection offers, from the top.
pub open spec fn offered(at: usize) -> Sort {
    if at == 0 {
        newest_first()
    } else if at == 1 {
        Sort { field: SortField::DateAdded, dir: SortDir::Ascending }
    } else if at == 2 {
        Sort { field: SortField::Name, dir: SortDir::Ascending }
    } else if at == 3 {
        Sort { field: SortField::Name, dir: SortDir::Descending }
    } else if at == 4 {
        Sort { field: SortField::ReleaseDate, dir: SortDir::Descending }
    } else {
        Sort { field: SortField::ReleaseDate, dir: SortDir::Ascending }
    }
}

/// Choosing another order lists the collection anew in that order; choosing the
/// current one asks for nothing.
pub proof fn law_the_chosen_order_is_asked_for(s: BrowseModel, at: usize)
    requires
        !s.inputs.search_focused,
        !s.inputs.filter_focused,
        !s.inputs.filter_active,
        s.place.tab == Tab::Libraries,
        s.place.series is None,
        s.place.level is Collection,
        s.popups.sort_menu == Some(at),
        at < 6,
    ensures
        ({
            let t = press(s, KeyCode::Enter);
            &&& t.popups.sort_menu is None
            &&& t.popups.collection_sort == offered(at)
            &&& offered(at) == s.popups.collection_sort ==> t.outbox == s.outbox && t.lists
                == s.lists
            &&& offered(at) != s.popups.collection_sort ==> {
                &&& t.lists.items.len() == 0
                &&& t.lists.cursor == 0
                &&& t.outbox.len() == s.outbox.len() + 1
                &&& t.outbox.last() == (RequestModel::LibraryPage {
                    fetch_gen: t.gens.fetch,
                    start_index: 0,
                    limit: 100,
                    delay_ms: 0,
                    query: Some(
                        QueryModel {
                            parent_id: s.place.level->collection.id@,
                            include_item_types: None,
                            recursive: false,
                            start_index: 0,
                            limit: 100,
                            sort_by: order_words(offered(at)).0,
                            sort_order: order_words(offered(at)).1,
                            search_term: None,
                        },
                    ),
                })
            }
        }),
{
    lemma_sort_menu(s, KeyCode::Enter);
}

/// The sort menu is gone through entry by entry, and left without a change.
pub proof fn law_the_sort_menu_is_gone_through(s: BrowseModel, at: usize)
    requires
        !s.inputs.search_focused,
        !s.inputs.filter_focused,
        s.popups.sort_menu == Some(at),
        at < 6,
    ensures
        press(s, KeyCode::Esc).popups.sort_menu is None,
        press(s, KeyCode::Esc).outbox == s.outbox,
        press(s, KeyCode::Esc).lists == s.lists,
        press(s, KeyCode::Esc).popups.collection_sort == s.popups.collection_sort,
        at < 5 ==> press(s, KeyCode::Down).popups.sort_menu == Some((at + 1) as usize),
        at > 0 ==> press(s, KeyCode::Up).popups.sort_menu == Some((at - 1) as usize),
{
    lemma_sort_menu(s, KeyCode::Esc);
    lemma_sort_menu(s, KeyCode::Down);
    lemma_sort_menu(s, KeyCode::Up);
}

proof fn lemma_sort_menu(s: BrowseModel, code: KeyCode)
    requires
        !s.inputs.search_focused,
        !s.inputs.filter_focused,
        !(code is Char),
        s.popups.sort_menu is Some,
    ensures
        press(s, code) == s.sort_menu_key(code),
{
    reveal(press);
}

} // verus!
