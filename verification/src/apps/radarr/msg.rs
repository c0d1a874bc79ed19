//! What the browse screen asks of the server. Every request whose answer can
//! be superseded carries the generation it was issued under; handlers drop
//! stale generations first, before looking at the result (a stale 401 belongs
//! to a key that may since have been replaced and must not kick the fresh
//! session).

use serde_json::Value;
use vstd::prelude::*;

verus! {

/// Which mutation finished.
#[derive(Debug, Clone, Copy, PartialEq, Eq, Structural)]
pub enum CommandKind {
    AutoSearch,
    Grab,
    DeleteFile,
    /// Carries the deleted movie's id, so the result can leave its detail only
    /// when the user is still viewing that movie.
    DeleteMovie(i64),
    DeleteQueue,
}

/// A mutation on the server.
#[derive(Debug)]
pub enum Call {
    MovieSearch { movie_id: i64 },
    GrabRelease { guid: String, indexer_id: i64 },
    DeleteMovieFile { file_id: i64 },
    DeleteMovie { id: i64, delete_files: bool, add_exclusion: bool },
    DeleteQueueItems { ids: Vec<i64>, remove_from_client: bool, blocklist: bool },
}

/// Something the browse screen asks the program to do.
#[derive(Debug)]
pub enum Request {
    /// Fetch the movie list.
    Movies { fetch_gen: u64 },
    /// Poll the download queue. Queue polls run on their own generation: a
    /// background poll must not invalidate (or be invalidated by) a list fetch
    /// in flight.
    Queue { queue_gen: u64 },
    /// Search the indexers for one movie.
    Releases { fetch_gen: u64, movie_id: i64 },
    /// Fetch one movie's history.
    History { fetch_gen: u64, movie_id: i64 },
    /// Run a mutation; its result is matched by the view generation it was
    /// issued from.
    Command { fetch_gen: u64, kind: CommandKind, call: Call },
    /// Look a title up for the add screen.
    Lookup { add_lookup_gen: u64, term: String },
    /// Fetch the root folders and the quality profiles.
    AddOptions { prereq_gen: u64 },
    /// Add the movie of a lookup object.
    AddMovie { add_gen: u64, body: Value },
    /// Start a tracked search for a movie.
    AutoSearch { generation: u64, movie_id: i64 },
    /// Poll a tracked command.
    PollCommand { generation: u64, command_id: i64 },
    /// Put the movie list into the order of a sort.
    Sort { sort: usize },
}

/// A mutation as values.
#[verifier::ext_equal]
pub enum CallModel {
    MovieSearch { movie_id: i64 },
    GrabRelease { guid: Seq<char>, indexer_id: i64 },
    DeleteMovieFile { file_id: i64 },
    DeleteMovie { id: i64, delete_files: bool, add_exclusion: bool },
    DeleteQueueItems { ids: Seq<i64>, remove_from_client: bool, blocklist: bool },
}

/// A request as values.
#[verifier::ext_equal]
pub enum RequestModel {
    Movies { fetch_gen: u64 },
    Queue { queue_gen: u64 },
    Releases { fetch_gen: u64, movie_id: i64 },
    History { fetch_gen: u64, movie_id: i64 },
    Command { fetch_gen: u64, kind: CommandKind, call: CallModel },
    Lookup { add_lookup_gen: u64, term: Seq<char> },
    AddOptions { prereq_gen: u64 },
    AddMovie { add_gen: u64, body: Value },
    AutoSearch { generation: u64, movie_id: i64 },
    PollCommand { generation: u64, command_id: i64 },
    Sort { sort: usize },
}

impl View for Call {
    type V = CallModel;

    open spec fn view(&self) -> CallModel {
        match self {
            Call::MovieSearch { movie_id } => CallModel::MovieSearch { movie_id: *movie_id },
            Call::GrabRelease { guid, indexer_id } => CallModel::GrabRelease {
                guid: guid@,
                indexer_id: *indexer_id,
            },
            Call::DeleteMovieFile { file_id } => CallModel::DeleteMovieFile { file_id: *file_id },
            Call::DeleteMovie { id, delete_files, add_exclusion } => CallModel::DeleteMovie {
                id: *id,
                delete_files: *delete_files,
                add_exclusion: *add_exclusion,
            },
            Call::DeleteQueueItems { ids, remove_from_client, blocklist } =>
                CallModel::DeleteQueueItems {
                ids: ids@,
                remove_from_client: *remove_from_client,
                blocklist: *blocklist,
            },
        }
    }
}

impl View for Request {
    type V = RequestModel;

    open spec fn view(&self) -> RequestModel {
        match self {
            Request::Movies { fetch_gen } => RequestModel::Movies { fetch_gen: *fetch_gen },
            Request::Queue { queue_gen } => RequestModel::Queue { queue_gen: *queue_gen },
            Request::Releases { fetch_gen, movie_id } => RequestModel::Releases {
                fetch_gen: *fetch_gen,
                movie_id: *movie_id,
            },
            Request::History { fetch_gen, movie_id } => RequestModel::History {
                fetch_gen: *fetch_gen,
                movie_id: *movie_id,
            },
            Request::Command { fetch_gen, kind, call } => RequestModel::Command {
                fetch_gen: *fetch_gen,
                kind: *kind,
                call: call@,
            },
            Request::Lookup { add_lookup_gen, term } => RequestModel::Lookup {
                add_lookup_gen: *add_lookup_gen,
                term: term@,
            },
            Request::AddOptions { prereq_gen } => RequestModel::AddOptions {
                prereq_gen: *prereq_gen,
            },
            Request::AddMovie { add_gen, body } => RequestModel::AddMovie {
                add_gen: *add_gen,
                body: *body,
            },
            Request::AutoSearch { generation, movie_id } => RequestModel::AutoSearch {
                generation: *generation,
                movie_id: *movie_id,
            },
            Request::PollCommand { generation, command_id } => RequestModel::PollCommand {
                generation: *generation,
                command_id: *command_id,
            },
            Request::Sort { sort } => RequestModel::Sort { sort: *sort },
        }
    }
}

/// Requests as values, in order.
pub open spec fn requests(list: Seq<Request>) -> Seq<RequestModel> {
    list.map_values(|r: Request| r@)
}

} // verus!
