//! Jellyfin's records, and how single values of them are shown.

use vstd::prelude::*;
use vstd::string::*;

use crate::arr::display::{year_label, year_text};
use crate::sonarr::{code_text, episode_code as code_of, season_name as name_of, season_text};
use crate::text::{is_text, join, joined, opt_text, push_opt, text_or, texts, with_opt};

verus! {

/// What an item is.
#[derive(Debug, Clone, Copy, PartialEq, Eq, Structural)]
pub enum ItemKind {
    Movie,
    Series,
    Episode,
    Video,
    BoxSet,
    CollectionFolder,
    /// Anything that the screens do not tell apart.
    Other,
}

impl Default for ItemKind {
    fn default() -> (kind: Self)
        ensures
            kind == ItemKind::Other,
    {
        ItemKind::Other
    }
}

/// What the server keeps of an item for its user.
#[derive(Debug, Default)]
pub struct UserData {
    pub played: Option<bool>,
    /// Percent watched as it is shown ("42"), where playback has begun.
    pub progress: Option<String>,
}

/// One item of the server.
#[derive(Debug, Default)]
pub struct MediaItem {
    pub id: String,
    pub name: Option<String>,
    pub kind: ItemKind,
    /// What a library holds ("movies", "tvshows", ..).
    pub collection_type: Option<String>,
    pub overview: Option<String>,
    pub genres: Vec<String>,
    pub series_id: Option<String>,
    pub series_name: Option<String>,
    /// The season of an episode; none or 0 for a special.
    pub parent_index_number: Option<i32>,
    /// The episode within its season.
    pub index_number: Option<i32>,
    pub production_year: Option<i32>,
    /// The rating as it is shown ("8.1"), where there is one.
    pub rating: Option<String>,
    /// The running time as it is shown.
    pub runtime: Option<String>,
    /// What is known of its streams, each under its label.
    pub streams: Vec<(String, String)>,
    pub user_data: Option<UserData>,
}

/// What can go wrong with the server.
#[derive(Debug)]
pub enum Error {
    Unauthorized,
    /// Holds why.
    Failed(String),
}

impl Error {
    /// The sentence shown for the error.
    pub open spec fn text(self) -> Seq<char> {
        match self {
            Error::Unauthorized => "authentication failed"@,
            Error::Failed(why) => why@,
        }
    }

    /// The sentence shown for the error.
    pub fn message(&self) -> (text: String)
        ensures
            text@ == self.text(),
    {
        match self {
            Error::Unauthorized => "authentication failed".to_owned(),
            Error::Failed(why) => why.clone(),
        }
    }
}

/// The request for one page of a library.
#[derive(Debug)]
pub struct LibraryItemsQuery {
    pub parent_id: String,
    pub include_item_types: Option<&'static str>,
    pub recursive: bool,
    pub start_index: usize,
    pub limit: usize,
    pub sort_by: &'static str,
    pub sort_order: &'static str,
    pub search_term: Option<String>,
}

/// The request for one page as values.
#[verifier::ext_equal]
pub struct QueryModel {
    pub parent_id: Seq<char>,
    pub include_item_types: Option<&'static str>,
    pub recursive: bool,
    pub start_index: usize,
    pub limit: usize,
    pub sort_by: &'static str,
    pub sort_order: &'static str,
    pub search_term: Option<Seq<char>>,
}

impl View for LibraryItemsQuery {
    type V = QueryModel;

    open spec fn view(&self) -> QueryModel {
        QueryModel {
            parent_id: self.parent_id@,
            include_item_types: self.include_item_types,
            recursive: self.recursive,
            start_index: self.start_index,
            limit: self.limit,
            sort_by: self.sort_by,
            sort_order: self.sort_order,
            search_term: opt_text(self.search_term),
        }
    }
}

/// What a library lists by what it holds: movies and shows wherever they lie
/// in it, anything else as its direct children.
pub open spec fn scope(collection_type: Option<Seq<char>>) -> (Option<&'static str>, bool) {
    if collection_type == Some("movies"@) {
        (Some("Movie"), true)
    } else if collection_type == Some("tvshows"@) {
        (Some("Series"), true)
    } else {
        (None, false)
    }
}

/// What a library lists: the item types asked for, and whether they are looked
/// for below its direct children.
pub fn library_scope(collection_type: &Option<String>) -> (r: (Option<&'static str>, bool))
    ensures
        r == scope(opt_text(*collection_type)),
{
    if is_text(collection_type, "movies") {
        (Some("Movie"), true)
    } else if is_text(collection_type, "tvshows") {
        (Some("Series"), true)
    } else {
        (None, false)
    }
}

/// Whether an item has been watched.
pub open spec fn is_watched(item: MediaItem) -> bool {
    item.user_data is Some && item.user_data->0.played == Some(true)
}

/// Whether an item has been watched.
pub fn watched(item: &MediaItem) -> (answer: bool)
    ensures
        answer == is_watched(*item),
{
    match &item.user_data {
        Some(data) => match data.played {
            Some(played) => played,
            None => false,
        },
        None => false,
    }
}

/// A number, or 0 where there is none.
pub open spec fn or_zero(number: Option<i32>) -> i32 {
    match number {
        Some(n) => n,
        None => 0,
    }
}

fn number_or_zero(number: Option<i32>) -> (n: i32)
    ensures
        n == or_zero(number),
{
    match number {
        Some(n) => n,
        None => 0,
    }
}

/// "Specials" for no number and for 0, else "Season 3".
pub fn season_name(number: Option<i32>) -> (name: String)
    ensures
        name@ == season_text(or_zero(number)),
{
    name_of(number_or_zero(number))
}

/// "S01E02".
pub open spec fn item_code(item: MediaItem) -> Seq<char> {
    code_text(or_zero(item.parent_index_number), or_zero(item.index_number))
}

/// "S01E02".
pub fn episode_code(item: &MediaItem) -> (code: String)
    ensures
        code@ == item_code(*item),
{
    code_of(number_or_zero(item.parent_index_number), number_or_zero(item.index_number))
}

/// An item's name, or a stand-in.
pub open spec fn shown_name(item: MediaItem) -> Seq<char> {
    match item.name {
        Some(name) => name@,
        None => "(untitled)"@,
    }
}

/// What an item is listed as: an episode with its series and its code, anything
/// else by its name.
pub open spec fn title_text(item: MediaItem) -> Seq<char> {
    if item.kind == ItemKind::Episode && item.series_name is Some {
        item.series_name->0@ + " - "@ + item_code(item) + " - "@ + shown_name(item)
    } else {
        shown_name(item)
    }
}

/// What an item is listed as.
pub fn item_title(item: &MediaItem) -> (title: String)
    ensures
        title@ == title_text(*item),
{
    let name: String = text_or(&item.name, "(untitled)");
    if item.kind == ItemKind::Episode {
        if let Some(series) = &item.series_name {
            let mut title: String = series.clone();
            title.append(" - ");
            title.append(episode_code(item).as_str());
            title.append(" - ");
            title.append(name.as_str());
            return title;
        }
    }
    name
}

/// "2024 • 8.1 • 1h 42m", as far as known.
pub open spec fn description_text(item: MediaItem) -> Seq<char> {
    let dated = with_opt(Seq::empty(), year_text(item.production_year));
    let rated = with_opt(dated, opt_text(item.rating));
    joined(with_opt(rated, opt_text(item.runtime)), " • "@)
}

/// The line below an item's title: year, rating and running time.
pub fn item_description(item: &MediaItem) -> (text: String)
    ensures
        text@ == description_text(*item),
{
    let mut parts: Vec<String> = Vec::new();
    assert(texts(parts@) =~= Seq::empty());
    push_opt(&mut parts, year_label(item.production_year));
    push_opt(&mut parts, item.rating.clone());
    push_opt(&mut parts, item.runtime.clone());
    join(&parts, " • ")
}

/// The key under which track switches are remembered: the series of an episode,
/// else the item itself.
pub open spec fn remembered_as(item: MediaItem) -> Seq<char> {
    if item.kind == ItemKind::Episode && item.series_id is Some {
        item.series_id->0@
    } else {
        item.id@
    }
}

/// The key under which track switches are remembered.
pub fn override_key(item: &MediaItem) -> (key: String)
    ensures
        key@ == remembered_as(*item),
{
    if item.kind == ItemKind::Episode {
        if let Some(id) = &item.series_id {
            return id.clone();
        }
    }
    item.id.clone()
}

/// An episode is titled by its series, its code and its name, and anything else
/// by its name.
pub proof fn law_titles_name_the_series_of_an_episode(item: MediaItem)
    requires
        item.name is Some,
    ensures
        item.kind == ItemKind::Episode && item.series_name is Some && item.parent_index_number is Some
            && item.index_number is Some ==> title_text(item) == item.series_name->0@ + " - "@
            + code_text(item.parent_index_number->0, item.index_number->0) + " - "@
            + item.name->0@,
        item.kind != ItemKind::Episode || item.series_name is None ==> title_text(item)
            == item.name->0@,
{
}

/// The episodes of one series share what is remembered of their tracks; an item
/// without a series keeps it for itself.
pub proof fn law_episodes_of_a_series_are_remembered_together(a: MediaItem, b: MediaItem)
    ensures
        a.kind == ItemKind::Episode && b.kind == ItemKind::Episode && a.series_id is Some
            && b.series_id is Some ==> (remembered_as(a) == remembered_as(b) <==> a.series_id->0@
            == b.series_id->0@),
        a.kind != ItemKind::Episode || a.series_id is None ==> remembered_as(a) == a.id@,
{
}

/// A library of movies lists movies, one of shows lists series, both at any
/// depth; any other lists what stands directly in it.
pub proof fn law_libraries_list_their_own_kind()
    ensures
        scope(Some("movies"@)) == (Some("Movie"), true),
        "tvshows"@ != "movies"@,
        scope(Some("tvshows"@)) == (Some("Series"), true),
        scope(None) == (None::<&'static str>, false),
        forall|kind: Seq<char>|
            kind != "movies"@ && kind != "tvshows"@ ==> #[trigger] scope(Some(kind)) == (
                None::<&'static str>,
                false,
            ),
{
    reveal_strlit("movies");
    reveal_strlit("tvshows");
    assert("tvshows"@.len() != "movies"@.len());
}

} // verus!
