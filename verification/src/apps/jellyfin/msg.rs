//! What the browse screen asks of the server. Every request carries the
//! generation it was issued under; handlers drop stale generations first,
//! before looking at the result (a stale 401 belongs to a token that may since
//! have been replaced and must not kick the fresh session).

use std::sync::Arc;
use vstd::prelude::*;

use crate::apps::jellyfin::library::opt_query;
use crate::jellyfin::{LibraryItemsQuery, MediaItem, QueryModel};

verus! {

/// Where a flat list comes from.
#[derive(Debug)]
pub enum Source {
    Episodes(Arc<MediaItem>),
    Resume,
    NextUp,
    RecentlyAdded,
    /// An empty list, without asking the server.
    Nothing,
    Search(String),
}

/// Something the browse screen asks the program to do.
#[derive(Debug)]
pub enum Request {
    /// Fetch a flat list.
    Items { fetch_gen: u64, source: Source },
    /// Fetch one page of a library, or (query `None`) the list of libraries,
    /// after waiting this long.
    LibraryPage {
        fetch_gen: u64,
        start_index: usize,
        limit: usize,
        delay_ms: u64,
        query: Option<LibraryItemsQuery>,
    },
    /// Mark an item as watched or not; its result is matched by the view
    /// generation it was issued from.
    SetWatched { fetch_gen: u64, item_id: String, watched: bool },
}

/// Where a flat list comes from, as values.
#[verifier::ext_equal]
pub enum SourceModel {
    Episodes(Arc<MediaItem>),
    Resume,
    NextUp,
    RecentlyAdded,
    Nothing,
    Search(Seq<char>),
}

/// A request as values.
#[verifier::ext_equal]
pub enum RequestModel {
    Items { fetch_gen: u64, source: SourceModel },
    LibraryPage {
        fetch_gen: u64,
        start_index: usize,
        limit: usize,
        delay_ms: u64,
        query: Option<QueryModel>,
    },
    SetWatched { fetch_gen: u64, item_id: Seq<char>, watched: bool },
}

impl View for Source {
    type V = SourceModel;

    open spec fn view(&self) -> SourceModel {
        match self {
            Source::Episodes(series) => SourceModel::Episodes(*series),
            Source::Resume => SourceModel::Resume,
            Source::NextUp => SourceModel::NextUp,
            Source::RecentlyAdded => SourceModel::RecentlyAdded,
            Source::Nothing => SourceModel::Nothing,
            Source::Search(term) => SourceModel::Search(term@),
        }
    }
}

impl View for Request {
    type V = RequestModel;

    open spec fn view(&self) -> RequestModel {
        match self {
            Request::Items { fetch_gen, source } => RequestModel::Items {
                fetch_gen: *fetch_gen,
                source: source@,
            },
            Request::LibraryPage { fetch_gen, start_index, limit, delay_ms, query } =>
                RequestModel::LibraryPage {
                fetch_gen: *fetch_gen,
                start_index: *start_index,
                limit: *limit,
                delay_ms: *delay_ms,
                query: opt_query(*query),
            },
            Request::SetWatched { fetch_gen, item_id, watched } => RequestModel::SetWatched {
                fetch_gen: *fetch_gen,
                item_id: item_id@,
                watched: *watched,
            },
        }
    }
}

/// Requests as values, in order.
pub open spec fn requests(list: Seq<Request>) -> Seq<RequestModel> {
    list.map_values(|r: Request| r@)
}

} // verus!
