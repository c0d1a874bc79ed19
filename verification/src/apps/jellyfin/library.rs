//! The tabs, the libraries and how they are listed, and the seasons of a
//! series.

use std::sync::Arc;
use vstd::prelude::*;
use vstd::string::*;

use crate::jellyfin::{
    is_watched, library_scope, scope, watched, ItemKind, LibraryItemsQuery, MediaItem, QueryModel,
};
use crate::text::{is_text, opt_text};

verus! {

/// Items per request in the Libraries tab's lazily-loaded lists.
pub const PAGE_SIZE: usize = 100;

/// Fetch the next page once the cursor is within this many rows of the end of
/// the loaded window.
pub const FETCH_AHEAD: usize = 20;

#[derive(Debug, Clone, Copy, PartialEq, Eq, Structural)]
pub enum Tab {
    Resume,
    NextUp,
    RecentlyAdded,
    Libraries,
    Search,
}

/// The tabs from left to right.
pub const TABS: [Tab; 5] = [
    Tab::Resume,
    Tab::NextUp,
    Tab::RecentlyAdded,
    Tab::Libraries,
    Tab::Search,
];

impl Tab {
    /// Where a tab stands in the row.
    pub open spec fn place(self) -> int {
        match self {
            Tab::Resume => 0,
            Tab::NextUp => 1,
            Tab::RecentlyAdded => 2,
            Tab::Libraries => 3,
            Tab::Search => 4,
        }
    }

    /// The tab at a place, the row closed to a ring.
    pub open spec fn at(place: int) -> Tab {
        TABS@[place % 5]
    }

    pub open spec fn label(self) -> &'static str {
        match self {
            Tab::Resume => "Resume",
            Tab::NextUp => "Next Up",
            Tab::RecentlyAdded => "Recently Added",
            Tab::Libraries => "Libraries",
            Tab::Search => "Search",
        }
    }

    pub fn name(self) -> (name: &'static str)
        ensures
            name == self.label(),
    {
        match self {
            Tab::Resume => "Resume",
            Tab::NextUp => "Next Up",
            Tab::RecentlyAdded => "Recently Added",
            Tab::Libraries => "Libraries",
            Tab::Search => "Search",
        }
    }

    /// The tab to the right, the first behind the last.
    pub fn next(self) -> (tab: Tab)
        ensures
            tab == Tab::at(self.place() + 1),
    {
        match self {
            Tab::Resume => Tab::NextUp,
            Tab::NextUp => Tab::RecentlyAdded,
            Tab::RecentlyAdded => Tab::Libraries,
            Tab::Libraries => Tab::Search,
            Tab::Search => Tab::Resume,
        }
    }

    /// The tab to the left, the last before the first.
    pub fn prev(self) -> (tab: Tab)
        ensures
            tab == Tab::at(self.place() + 4),
    {
        match self {
            Tab::Resume => Tab::Search,
            Tab::NextUp => Tab::Resume,
            Tab::RecentlyAdded => Tab::NextUp,
            Tab::Libraries => Tab::RecentlyAdded,
            Tab::Search => Tab::Libraries,
        }
    }
}

/// Going one way round the tabs and back ends where it began, and the row holds
/// each tab at its place.
pub proof fn law_tabs_form_a_ring(tab: Tab)
    ensures
        Tab::at(tab.place()) == tab,
        Tab::at(Tab::at(tab.place() + 1).place() + 4) == tab,
        Tab::at(Tab::at(tab.place() + 4).place() + 1) == tab,
        Tab::at(tab.place() + 1) != tab,
{
}

/// How a library behaves when opened; derived from the view's collection type,
/// since every view is a collection folder.
#[derive(Debug, Clone, Copy, PartialEq, Eq, Structural)]
pub enum LibraryKind {
    Movies,
    Shows,
    Other,
}

/// The kind of a library by what it holds.
pub open spec fn kind_of(collection_type: Option<Seq<char>>) -> LibraryKind {
    if collection_type == Some("movies"@) {
        LibraryKind::Movies
    } else if collection_type == Some("tvshows"@) {
        LibraryKind::Shows
    } else {
        LibraryKind::Other
    }
}

pub fn library_kind(item: &MediaItem) -> (kind: LibraryKind)
    ensures
        kind == kind_of(opt_text(item.collection_type)),
{
    if is_text(&item.collection_type, "movies") {
        LibraryKind::Movies
    } else if is_text(&item.collection_type, "tvshows") {
        LibraryKind::Shows
    } else {
        LibraryKind::Other
    }
}

/// Whether an item carries an overview: containers do not.
pub open spec fn has_info(item: MediaItem) -> bool {
    item.kind == ItemKind::Movie || item.kind == ItemKind::Series || item.kind == ItemKind::Episode
        || item.kind == ItemKind::Video
}

/// Whether the info panel is meaningful for this item. Containers (library
/// views, box sets) carry no overview, so `i` is inert on them.
pub fn info_available(item: &MediaItem) -> (answer: bool)
    ensures
        answer == has_info(*item),
{
    matches!(
        item.kind,
        ItemKind::Movie | ItemKind::Series | ItemKind::Episode | ItemKind::Video
    )
}

/// Whether an item is played by itself, so that it can be watched.
pub open spec fn is_playable(item: MediaItem) -> bool {
    item.kind == ItemKind::Movie || item.kind == ItemKind::Episode || item.kind == ItemKind::Video
}

pub fn playable(item: &MediaItem) -> (answer: bool)
    ensures
        answer == is_playable(*item),
{
    matches!(item.kind, ItemKind::Movie | ItemKind::Episode | ItemKind::Video)
}

/// Where the user is inside the Libraries tab. A flat enum rather than a
/// stack: depth is bounded at two, and collections only exist inside Other
/// libraries, so leaving a collection always lands on an Other library.
#[derive(Debug)]
pub enum LibraryLevel {
    Root,
    Library { library: Arc<MediaItem>, kind: LibraryKind },
    Collection { library: Arc<MediaItem>, collection: Arc<MediaItem> },
}

#[derive(Debug, Clone, Copy, PartialEq, Eq, Structural)]
pub enum SortField {
    Name,
    DateAdded,
    ReleaseDate,
}

#[derive(Debug, Clone, Copy, PartialEq, Eq, Structural)]
pub enum SortDir {
    Ascending,
    Descending,
}

#[derive(Debug, Clone, Copy, PartialEq, Eq, Structural)]
pub struct Sort {
    pub field: SortField,
    pub dir: SortDir,
}

/// Sort menu entries, default first.
pub open spec fn menu() -> Seq<Sort> {
    seq![
        Sort { field: SortField::DateAdded, dir: SortDir::Descending },
        Sort { field: SortField::DateAdded, dir: SortDir::Ascending },
        Sort { field: SortField::Name, dir: SortDir::Ascending },
        Sort { field: SortField::Name, dir: SortDir::Descending },
        Sort { field: SortField::ReleaseDate, dir: SortDir::Descending },
        Sort { field: SortField::ReleaseDate, dir: SortDir::Ascending },
    ]
}

/// Sort menu entries, default first.
pub fn sort_options() -> (options: Vec<Sort>)
    ensures
        options@ == menu(),
{
    vec![
        Sort { field: SortField::DateAdded, dir: SortDir::Descending },
        Sort { field: SortField::DateAdded, dir: SortDir::Ascending },
        Sort { field: SortField::Name, dir: SortDir::Ascending },
        Sort { field: SortField::Name, dir: SortDir::Descending },
        Sort { field: SortField::ReleaseDate, dir: SortDir::Descending },
        Sort { field: SortField::ReleaseDate, dir: SortDir::Ascending },
    ]
}

impl Default for Sort {
    fn default() -> (sort: Self)
        ensures
            sort == Sort::newest(),
    {
        Sort { field: SortField::DateAdded, dir: SortDir::Descending }
    }
}

impl Sort {
    /// What was added last comes first: the sort of every list that the user
    /// has not sorted.
    pub open spec fn newest() -> Sort {
        Sort { field: SortField::DateAdded, dir: SortDir::Descending }
    }

    /// What the server calls the sort.
    pub open spec fn params(self) -> (&'static str, &'static str) {
        (
            match self.field {
                SortField::Name => "SortName",
                SortField::DateAdded => "DateCreated",
                SortField::ReleaseDate => "PremiereDate",
            },
            match self.dir {
                SortDir::Ascending => "Ascending",
                SortDir::Descending => "Descending",
            },
        )
    }

    pub fn api_params(self) -> (params: (&'static str, &'static str))
        ensures
            params == self.params(),
    {
        let sort_by: &'static str = match self.field {
            SortField::Name => "SortName",
            SortField::DateAdded => "DateCreated",
            SortField::ReleaseDate => "PremiereDate",
        };
        let sort_order: &'static str = match self.dir {
            SortDir::Ascending => "Ascending",
            SortDir::Descending => "Descending",
        };
        (sort_by, sort_order)
    }

    /// What the menu calls the sort.
    pub open spec fn caption(self) -> &'static str {
        match self.field {
            SortField::DateAdded => match self.dir {
                SortDir::Descending => "Date added, newest first",
                SortDir::Ascending => "Date added, oldest first",
            },
            SortField::Name => match self.dir {
                SortDir::Ascending => "Name, A to Z",
                SortDir::Descending => "Name, Z to A",
            },
            SortField::ReleaseDate => match self.dir {
                SortDir::Descending => "Release date, newest first",
                SortDir::Ascending => "Release date, oldest first",
            },
        }
    }

    pub fn label(self) -> (label: &'static str)
        ensures
            label == self.caption(),
    {
        match self.field {
            SortField::DateAdded => match self.dir {
                SortDir::Descending => "Date added, newest first",
                SortDir::Ascending => "Date added, oldest first",
            },
            SortField::Name => match self.dir {
                SortDir::Ascending => "Name, A to Z",
                SortDir::Descending => "Name, Z to A",
            },
            SortField::ReleaseDate => match self.dir {
                SortDir::Descending => "Release date, newest first",
                SortDir::Ascending => "Release date, oldest first",
            },
        }
    }

    /// Where the sort stands in the menu.
    pub open spec fn place(self) -> int {
        match self.field {
            SortField::DateAdded => if self.dir == SortDir::Descending {
                0
            } else {
                1
            },
            SortField::Name => if self.dir == SortDir::Ascending {
                2
            } else {
                3
            },
            SortField::ReleaseDate => if self.dir == SortDir::Descending {
                4
            } else {
                5
            },
        }
    }

    pub fn index(self) -> (place: usize)
        ensures
            place == self.place(),
            place < 6,
    {
        match self.field {
            SortField::DateAdded => if self.dir == SortDir::Descending {
                0
            } else {
                1
            },
            SortField::Name => if self.dir == SortDir::Ascending {
                2
            } else {
                3
            },
            SortField::ReleaseDate => if self.dir == SortDir::Descending {
                4
            } else {
                5
            },
        }
    }
}

/// The menu offers every sort once, at its place, the default first.
pub proof fn law_menu_offers_every_sort(sort: Sort)
    ensures
        menu()[sort.place()] == sort,
        Sort::newest().place() == 0,
{
}

/// Whether the cursor is close enough to the end of the loaded window for the
/// next page.
pub open spec fn wants_more(cursor: int, loaded: int, total: int, loading: bool) -> bool {
    !loading && loaded < total && cursor + FETCH_AHEAD >= loaded
}

/// Whether the cursor is close enough to the end of the loaded window to
/// warrant fetching the next page. `loading` blocks a second in-flight page.
pub fn should_fetch_more(cursor: usize, loaded: usize, total: usize, loading: bool) -> (answer: bool)
    ensures
        answer == wants_more(cursor as int, loaded as int, total as int, loading),
{
    !loading && loaded < total && (loaded < FETCH_AHEAD || cursor >= loaded - FETCH_AHEAD)
}

/// A season derived from the flat episode list by grouping on the episodes'
/// season number; no number and 0 are the specials.
#[derive(Debug, Clone, Copy, PartialEq, Eq, Structural)]
pub struct SeasonRow {
    pub number: Option<i32>,
    pub episode_count: usize,
    pub watched_count: usize,
}

/// The season numbers in the order in which they first occur.
pub open spec fn first_seen(items: Seq<Arc<MediaItem>>) -> Seq<Option<i32>>
    decreases items.len(),
{
    if items.len() == 0 {
        Seq::empty()
    } else {
        let before = first_seen(items.drop_last());
        if before.contains(items.last().parent_index_number) {
            before
        } else {
            before.push(items.last().parent_index_number)
        }
    }
}

/// How many episodes a season has.
pub open spec fn episodes_in(items: Seq<Arc<MediaItem>>, number: Option<i32>) -> nat
    decreases items.len(),
{
    if items.len() == 0 {
        0
    } else {
        episodes_in(items.drop_last(), number) + if items.last().parent_index_number == number {
            1nat
        } else {
            0nat
        }
    }
}

/// How many episodes of a season have been watched.
pub open spec fn watched_in(items: Seq<Arc<MediaItem>>, number: Option<i32>) -> nat
    decreases items.len(),
{
    if items.len() == 0 {
        0
    } else {
        watched_in(items.drop_last(), number) + if items.last().parent_index_number == number
            && is_watched(*items.last()) {
            1nat
        } else {
            0nat
        }
    }
}

/// A season of an episode list.
pub open spec fn season_of(items: Seq<Arc<MediaItem>>, number: Option<i32>) -> SeasonRow {
    SeasonRow {
        number,
        episode_count: episodes_in(items, number) as usize,
        watched_count: watched_in(items, number) as usize,
    }
}

/// The seasons of an episode list, in the order in which they first occur.
pub open spec fn seasons_of(items: Seq<Arc<MediaItem>>) -> Seq<SeasonRow> {
    first_seen(items).map_values(|number: Option<i32>| season_of(items, number))
}

proof fn lemma_counts_bounded(items: Seq<Arc<MediaItem>>, number: Option<i32>)
    ensures
        watched_in(items, number) <= episodes_in(items, number) <= items.len(),
    decreases items.len(),
{
    if items.len() > 0 {
        lemma_counts_bounded(items.drop_last(), number);
    }
}

proof fn lemma_unseen(items: Seq<Arc<MediaItem>>, number: Option<i32>)
    requires
        !first_seen(items).contains(number),
    ensures
        episodes_in(items, number) == 0,
        watched_in(items, number) == 0,
    decreases items.len(),
{
    if items.len() > 0 {
        let before = first_seen(items.drop_last());
        let last = items.last().parent_index_number;
        if before.contains(number) {
            let k = choose|k: int| 0 <= k < before.len() && before[k] == number;
            assert(first_seen(items)[k] == number);
        }
        if last == number {
            if !before.contains(last) {
                assert(first_seen(items)[before.len() as int] == number);
            }
        }
        lemma_unseen(items.drop_last(), number);
    }
}

proof fn lemma_first_seen_is_distinct(items: Seq<Arc<MediaItem>>)
    ensures
        forall|j: int, k: int|
            #![trigger first_seen(items)[j], first_seen(items)[k]]
            0 <= j < k < first_seen(items).len() ==> first_seen(items)[j] != first_seen(items)[k],
    decreases items.len(),
{
    if items.len() > 0 {
        lemma_first_seen_is_distinct(items.drop_last());
        let before = first_seen(items.drop_last());
        let now = first_seen(items);
        assert forall|j: int, k: int|
            #![trigger now[j], now[k]]
            0 <= j < k < now.len() implies now[j] != now[k] by {
            assert(now[j] == before[j]);
            if k < before.len() {
                assert(now[k] == before[k]);
            }
        }
    }
}

/// How many of the seasons' episodes there are.
pub open spec fn total_episodes(seasons: Seq<SeasonRow>) -> nat
    decreases seasons.len(),
{
    if seasons.len() == 0 {
        0
    } else {
        total_episodes(seasons.drop_last()) + seasons.last().episode_count as nat
    }
}

/// Group a flat, season-ordered episode list into seasons by season number,
/// preserving first-seen (server) order. No number collects as its own bucket
/// (rendered as "Specials").
pub fn group_seasons(items: &[Arc<MediaItem>]) -> (seasons: Vec<SeasonRow>)
    ensures
        seasons@ == seasons_of(items@),
{
    let mut seasons: Vec<SeasonRow> = Vec::new();
    let mut i: usize = 0;
    assert(seasons@ =~= seasons_of(items@.take(0)));
    while i < items.len()
        invariant
            i <= items@.len(),
            seasons@ == seasons_of(items@.take(i as int)),
        decreases items@.len() - i,
    {
        let ghost done = items@.take(i as int);
        let ghost next = items@.take(i + 1);
        let ghost before = seasons@;
        assert(next.drop_last() =~= done);
        assert(next.last() == items@[i as int]);
        let number: Option<i32> = items[i].parent_index_number;
        let seen: usize = if watched(&items[i]) {
            1
        } else {
            0
        };
        let mut at: usize = 0;
        while at < seasons.len() && seasons[at].number != number
            invariant
                at <= seasons@.len(),
                seasons@ == before,
                forall|k: int| 0 <= k < at ==> (#[trigger] seasons@[k]).number != number,
            decreases seasons@.len() - at,
        {
            at += 1;
        }
        assert forall|k: int| 0 <= k < before.len() implies (#[trigger] before[k]) == season_of(
            done,
            first_seen(done)[k],
        ) by {}
        if at < seasons.len() {
            proof {
                assert(first_seen(done)[at as int] == number);
                assert(first_seen(done).contains(number));
                lemma_first_seen_is_distinct(done);
                lemma_counts_bounded(done, number);
                lemma_counts_bounded(next, number);
                assert forall|k: int| 0 <= k < before.len() && k != at implies season_of(
                    next,
                    #[trigger] first_seen(done)[k],
                ) == before[k] by {
                    assert(first_seen(done)[k] != number);
                }
            }
            let row: SeasonRow = seasons[at];
            seasons.set(
                at,
                SeasonRow {
                    number,
                    episode_count: row.episode_count + 1,
                    watched_count: row.watched_count + seen,
                },
            );
        } else {
            proof {
                assert(!first_seen(done).contains(number)) by {
                    if first_seen(done).contains(number) {
                        let k = choose|k: int|
                            0 <= k < first_seen(done).len() && first_seen(done)[k] == number;
                        assert(seasons@[k].number == number);
                    }
                }
                lemma_unseen(done, number);
                assert forall|k: int| 0 <= k < before.len() implies season_of(
                    next,
                    #[trigger] first_seen(done)[k],
                ) == before[k] by {
                    assert(first_seen(done)[k] != number);
                }
            }
            seasons.push(SeasonRow { number, episode_count: 1, watched_count: seen });
        }
        assert(seasons@ =~= seasons_of(next));
        i += 1;
    }
    assert(items@.take(i as int) =~= items@);
    seasons
}

/// Every episode is counted in exactly one season; a season's number occurs
/// once, and no more of its episodes are watched than there are.
pub proof fn law_seasons_partition_the_episodes(items: Seq<Arc<MediaItem>>)
    requires
        items.len() <= usize::MAX,
    ensures
        total_episodes(seasons_of(items)) == items.len(),
        forall|j: int, k: int|
            #![trigger seasons_of(items)[j], seasons_of(items)[k]]
            0 <= j < k < seasons_of(items).len() ==> seasons_of(items)[j].number != seasons_of(
                items,
            )[k].number,
        forall|k: int|
            0 <= k < seasons_of(items).len() ==> (#[trigger] seasons_of(items)[k]).watched_count
                <= seasons_of(items)[k].episode_count,
{
    lemma_first_seen_is_distinct(items);
    assert forall|j: int, k: int|
        #![trigger seasons_of(items)[j], seasons_of(items)[k]]
        0 <= j < k < seasons_of(items).len() implies seasons_of(items)[j].number != seasons_of(
        items,
    )[k].number by {
        assert(seasons_of(items)[j].number == first_seen(items)[j]);
        assert(seasons_of(items)[k].number == first_seen(items)[k]);
    }
    assert forall|k: int| 0 <= k < seasons_of(items).len() implies (
    #[trigger] seasons_of(items)[k]).watched_count <= seasons_of(items)[k].episode_count by {
        lemma_counts_bounded(items, first_seen(items)[k]);
    }
    lemma_counts_add_up(items, items.len() as int);
    assert(items.take(items.len() as int) =~= items);
    lemma_total(items, first_seen(items).len() as int);
    assert(seasons_of(items).take(first_seen(items).len() as int) =~= seasons_of(items));
    assert(first_seen(items).take(first_seen(items).len() as int) =~= first_seen(items));
}

/// The episodes of some seasons.
spec fn episodes_over(items: Seq<Arc<MediaItem>>, numbers: Seq<Option<i32>>) -> nat
    decreases numbers.len(),
{
    if numbers.len() == 0 {
        0
    } else {
        episodes_over(items, numbers.drop_last()) + episodes_in(items, numbers.last())
    }
}

proof fn lemma_total(items: Seq<Arc<MediaItem>>, n: int)
    requires
        items.len() <= usize::MAX,
        0 <= n <= first_seen(items).len(),
    ensures
        total_episodes(seasons_of(items).take(n)) == episodes_over(
            items,
            first_seen(items).take(n),
        ),
    decreases n,
{
    if n > 0 {
        lemma_total(items, n - 1);
        assert(seasons_of(items).take(n).drop_last() =~= seasons_of(items).take(n - 1));
        assert(first_seen(items).take(n).drop_last() =~= first_seen(items).take(n - 1));
        lemma_counts_bounded(items, first_seen(items)[n - 1]);
    }
}

/// One more episode counts in the seasons that hold its number.
proof fn lemma_one_more(
    items: Seq<Arc<MediaItem>>,
    numbers: Seq<Option<i32>>,
)
    requires
        items.len() > 0,
        forall|j: int, k: int|
            #![trigger numbers[j], numbers[k]]
            0 <= j < k < numbers.len() ==> numbers[j] != numbers[k],
    ensures
        episodes_over(items, numbers) == episodes_over(items.drop_last(), numbers)
            + if numbers.contains(items.last().parent_index_number) {
            1nat
        } else {
            0nat
        },
    decreases numbers.len(),
{
    let number = items.last().parent_index_number;
    if numbers.len() > 0 {
        let rest = numbers.drop_last();
        assert forall|j: int, k: int|
            #![trigger rest[j], rest[k]]
            0 <= j < k < rest.len() implies rest[j] != rest[k] by {
            assert(numbers[j] != numbers[k]);
        }
        lemma_one_more(items, rest);
        let last = numbers[numbers.len() - 1];
        if last == number {
            assert(!rest.contains(number)) by {
                if rest.contains(number) {
                    let k = choose|k: int| 0 <= k < rest.len() && rest[k] == number;
                    assert(numbers[k] != numbers[numbers.len() - 1]);
                }
            }
            assert(numbers.contains(number));
        } else if rest.contains(number) {
            let k = choose|k: int| 0 <= k < rest.len() && rest[k] == number;
            assert(numbers[k] == number);
        } else if numbers.contains(number) {
            let k = choose|k: int| 0 <= k < numbers.len() && numbers[k] == number;
            assert(rest[k] == number);
        }
    }
}

proof fn lemma_counts_add_up(items: Seq<Arc<MediaItem>>, n: int)
    requires
        0 <= n <= items.len(),
    ensures
        episodes_over(items.take(n), first_seen(items.take(n))) == n,
    decreases n,
{
    if n > 0 {
        lemma_counts_add_up(items, n - 1);
        let now = items.take(n);
        let done = items.take(n - 1);
        assert(now.drop_last() =~= done);
        lemma_first_seen_is_distinct(now);
        lemma_one_more(now, first_seen(now));
        let number = now.last().parent_index_number;
        let before = first_seen(done);
        if before.contains(number) {
        } else {
            assert(first_seen(now).drop_last() =~= before);
            assert(first_seen(now)[before.len() as int] == number);
            lemma_unseen(done, number);
        }
        assert(first_seen(now).contains(number));
    } else {
        assert(items.take(0) =~= Seq::empty());
    }
}

/// Whether the filter of a level runs on the server.
pub open spec fn filters_on_server(level: LibraryLevel) -> bool {
    level matches LibraryLevel::Library { kind, .. } && (kind == LibraryKind::Movies || kind
        == LibraryKind::Shows)
}

/// Whether this level's `/` filter runs server-side (a search term on the
/// paginated request). Only levels that query recursively qualify: Jellyfin
/// silently ignores the term on non-recursive queries, so the Other-library
/// levels (collections list, collection contents) filter client-side over a
/// fully loaded list instead.
pub fn server_filter_level(level: &LibraryLevel) -> (answer: bool)
    ensures
        answer == filters_on_server(*level),
{
    matches!(
        level,
        LibraryLevel::Library { kind: LibraryKind::Movies | LibraryKind::Shows, .. }
    )
}

/// A filter that is there and not empty.
pub open spec fn effective(filter: Option<Seq<char>>) -> Option<Seq<char>> {
    match filter {
        Some(term) => if term.len() > 0 {
            Some(term)
        } else {
            None
        },
        None => None,
    }
}

/// The request for one page of a level; none at the root.
pub open spec fn library_query(
    level: LibraryLevel,
    sort: Sort,
    filter: Option<Seq<char>>,
    start_index: usize,
) -> Option<QueryModel> {
    let listed = match level {
        LibraryLevel::Root => None,
        LibraryLevel::Library { library, .. } => Some(
            (
                library.id@,
                scope(opt_text(library.collection_type)).0,
                scope(opt_text(library.collection_type)).1,
            ),
        ),
        LibraryLevel::Collection { collection, .. } => Some((collection.id@, None, false)),
    };
    match listed {
        None => None,
        Some((parent_id, include_item_types, recursive)) => Some(
            QueryModel {
                parent_id,
                include_item_types,
                recursive,
                start_index,
                limit: PAGE_SIZE,
                sort_by: sort.params().0,
                sort_order: sort.params().1,
                search_term: effective(filter),
            },
        ),
    }
}

/// A request as values, where there is one.
pub open spec fn opt_query(query: Option<LibraryItemsQuery>) -> Option<QueryModel> {
    match query {
        Some(query) => Some(query@),
        None => None,
    }
}

/// The request for one page of the current library level; `None` at the root,
/// which is served by the list of libraries instead. A library is asked for in
/// the same scope as its item count at the root, so the number shown and the
/// list opened can never disagree.
pub fn build_library_query(
    level: &LibraryLevel,
    sort: Sort,
    filter: Option<&str>,
    start_index: usize,
) -> (query: Option<LibraryItemsQuery>)
    ensures
        opt_query(query) == library_query(
            *level,
            sort,
            (match filter {
                Some(term) => Some(term@),
                None => None,
            }),
            start_index,
        ),
{
    let (parent_id, include_item_types, recursive): (String, Option<&'static str>, bool) = match level {
        LibraryLevel::Root => {
            return None;
        },
        LibraryLevel::Library { library, .. } => {
            let (include_item_types, recursive) = library_scope(&library.collection_type);
            (library.id.clone(), include_item_types, recursive)
        },
        LibraryLevel::Collection { collection, .. } => (collection.id.clone(), None, false),
    };
    let (sort_by, sort_order) = sort.api_params();
    let search_term: Option<String> = match filter {
        Some(term) => if term.is_empty() {
            None
        } else {
            Some(term.to_owned())
        },
        None => None,
    };
    Some(
        LibraryItemsQuery {
            parent_id,
            include_item_types,
            recursive,
            start_index,
            limit: PAGE_SIZE,
            sort_by,
            sort_order,
            search_term,
        },
    )
}

/// A level whose filter runs on the server is asked for recursively: the server
/// ignores a search term otherwise.
pub proof fn law_server_filters_are_recursive(
    library: Arc<MediaItem>,
    sort: Sort,
    filter: Option<Seq<char>>,
    start_index: usize,
)
    ensures
        ({
            let level = LibraryLevel::Library {
                library,
                kind: kind_of(opt_text(library.collection_type)),
            };
            filters_on_server(level) == library_query(level, sort, filter, start_index)->0.recursive
        }),
{
}

} // verus!
