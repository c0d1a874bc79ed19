//! What the browse screen asks of the server. Every request whose answer can
//! be superseded carries the generation it was issued under; handlers drop
//! stale generations first, before looking at the result (a stale 401 belongs
//! to a key that may since have been replaced and must not kick the fresh
//! session).

use serde_json::Value;
use vstd::prelude::*;

use crate::text::opt_text;

verus! {

/// Which mutation finished.
#[derive(Debug, Clone, Copy, PartialEq, Eq, Structural)]
pub enum CommandKind {
    AutoSearch,
    Grab,
    DeleteFile,
    /// Carries the deleted series' id, so the result can leave its pages only
    /// when the user is still viewing that series.
    DeleteSeries(i64),
    DeleteQueue,
    /// A monitored toggle (series, season, or episode): the refetched
    /// indicator is the only feedback.
    SetMonitored,
    SetOptions,
}

/// A mutation on the server.
#[derive(Debug)]
pub enum Call {
    EpisodeSearch { episode_id: i64 },
    GrabRelease { guid: String, indexer_id: i64 },
    DeleteEpisodeFile { file_id: i64 },
    DeleteSeries { id: i64, delete_files: bool, add_exclusion: bool },
    DeleteQueueItems { ids: Vec<i64>, remove_from_client: bool, blocklist: bool },
    SetSeriesMonitored { id: i64, monitored: bool },
    SetSeasonMonitored { series_id: i64, season_number: i32, monitored: bool },
    SetEpisodeMonitored { id: i64, monitored: bool },
    /// Change the options of a series; only those present are sent.
    EditOptions {
        id: i64,
        root_folder: Option<String>,
        move_files: bool,
        quality_profile_id: Option<i64>,
        series_type: Option<&'static str>,
        season_folder: Option<bool>,
    },
}

/// Something the browse screen asks the program to do.
#[derive(Debug)]
pub enum Request {
    /// Fetch the series list.
    Series { fetch_gen: u64 },
    /// Fetch the episodes of a season.
    Episodes { fetch_gen: u64, series_id: i64, season_number: i32 },
    /// Poll the download queue. Queue polls run on their own generation: a
    /// background poll must not invalidate (or be invalidated by) a list fetch
    /// in flight.
    Queue { queue_gen: u64 },
    /// Search the indexers for one episode.
    Releases { fetch_gen: u64, episode_id: i64 },
    /// Fetch one episode's history.
    History { fetch_gen: u64, episode_id: i64 },
    /// Run a mutation; its result is matched by the view generation it was
    /// issued from.
    Command { fetch_gen: u64, kind: CommandKind, call: Call },
    /// Look a title up for the add screen.
    Lookup { add_lookup_gen: u64, term: String },
    /// Fetch the root folders and the quality profiles.
    AddOptions { prereq_gen: u64 },
    /// Add the series of a lookup object.
    AddSeries { add_gen: u64, body: Value },
    /// Start a tracked search for a series.
    AutoSearch { generation: u64, series_id: i64 },
    /// Poll a tracked command.
    PollCommand { generation: u64, command_id: i64 },
    /// Put the series list into the order of a sort.
    Sort { sort: usize },
}

/// A mutation as values.
#[verifier::ext_equal]
pub enum CallModel {
    EpisodeSearch { episode_id: i64 },
    GrabRelease { guid: Seq<char>, indexer_id: i64 },
    DeleteEpisodeFile { file_id: i64 },
    DeleteSeries { id: i64, delete_files: bool, add_exclusion: bool },
    DeleteQueueItems { ids: Seq<i64>, remove_from_client: bool, blocklist: bool },
    SetSeriesMonitored { id: i64, monitored: bool },
    SetSeasonMonitored { series_id: i64, season_number: i32, monitored: bool },
    SetEpisodeMonitored { id: i64, monitored: bool },
    EditOptions {
        id: i64,
        root_folder: Option<Seq<char>>,
        move_files: bool,
        quality_profile_id: Option<i64>,
        series_type: Option<&'static str>,
        season_folder: Option<bool>,
    },
}

/// A request as values.
#[verifier::ext_equal]
pub enum RequestModel {
    Series { fetch_gen: u64 },
    Episodes { fetch_gen: u64, series_id: i64, season_number: i32 },
    Queue { queue_gen: u64 },
    Releases { fetch_gen: u64, episode_id: i64 },
    History { fetch_gen: u64, episode_id: i64 },
    Command { fetch_gen: u64, kind: CommandKind, call: CallModel },
    Lookup { add_lookup_gen: u64, term: Seq<char> },
    AddOptions { prereq_gen: u64 },
    AddSeries { add_gen: u64, body: Value },
    AutoSearch { generation: u64, series_id: i64 },
    PollCommand { generation: u64, command_id: i64 },
    Sort { sort: usize },
}

impl View for Call {
    type V = CallModel;

    open spec fn view(&self) -> CallModel {
        match self {
            Call::EpisodeSearch { episode_id } => CallModel::EpisodeSearch {
                episode_id: *episode_id,
            },
            Call::GrabRelease { guid, indexer_id } => CallModel::GrabRelease {
                guid: guid@,
                indexer_id: *indexer_id,
            },
            Call::DeleteEpisodeFile { file_id } => CallModel::DeleteEpisodeFile {
                file_id: *file_id,
            },
            Call::DeleteSeries { id, delete_files, add_exclusion } => CallModel::DeleteSeries {
                id: *id,
                delete_files: *delete_files,
                add_exclusion: *add_exclusion,
            },
            Call::DeleteQueueItems { ids, remove_from_client, blocklist } =>
                CallModel::DeleteQueueItems {
                ids: ids@,
                remove_from_client: *remove_from_client,
                blocklist: *blocklist,
            },
            Call::SetSeriesMonitored { id, monitored } => CallModel::SetSeriesMonitored {
                id: *id,
                monitored: *monitored,
            },
            Call::SetSeasonMonitored { series_id, season_number, monitored } =>
                CallModel::SetSeasonMonitored {
                series_id: *series_id,
                season_number: *season_number,
                monitored: *monitored,
            },
            Call::SetEpisodeMonitored { id, monitored } => CallModel::SetEpisodeMonitored {
                id: *id,
                monitored: *monitored,
            },
            Call::EditOptions {
                id,
                root_folder,
                move_files,
                quality_profile_id,
                series_type,
                season_folder,
            } => CallModel::EditOptions {
                id: *id,
                root_folder: opt_text(*root_folder),
                move_files: *move_files,
                quality_profile_id: *quality_profile_id,
                series_type: *series_type,
                season_folder: *season_folder,
            },
        }
    }
}

impl View for Request {
    type V = RequestModel;

    open spec fn view(&self) -> RequestModel {
        match self {
            Request::Series { fetch_gen } => RequestModel::Series { fetch_gen: *fetch_gen },
            Request::Episodes { fetch_gen, series_id, season_number } => RequestModel::Episodes {
                fetch_gen: *fetch_gen,
                series_id: *series_id,
                season_number: *season_number,
            },
            Request::Queue { queue_gen } => RequestModel::Queue { queue_gen: *queue_gen },
            Request::Releases { fetch_gen, episode_id } => RequestModel::Releases {
                fetch_gen: *fetch_gen,
                episode_id: *episode_id,
            },
            Request::History { fetch_gen, episode_id } => RequestModel::History {
                fetch_gen: *fetch_gen,
                episode_id: *episode_id,
            },
            Request::Command { fetch_gen, kind, call } => RequestModel::Command {
                fetch_gen: *fetch_gen,
                kind: *kind,
                call: call@,
            },
            Request::Lookup { add_lookup_gen, term } => RequestModel::Lookup {
                add_lookup_gen: *add_lookup_gen,
                term: term@,
            },
            Request::AddOptions { prereq_gen } => RequestModel::AddOptions {
                prereq_gen: *prereq_gen,
            },
            Request::AddSeries { add_gen, body } => RequestModel::AddSeries {
                add_gen: *add_gen,
                body: *body,
            },
            Request::AutoSearch { generation, series_id } => RequestModel::AutoSearch {
                generation: *generation,
                series_id: *series_id,
            },
            Request::PollCommand { generation, command_id } => RequestModel::PollCommand {
                generation: *generation,
                command_id: *command_id,
            },
            Request::Sort { sort } => RequestModel::Sort { sort: *sort },
        }
    }
}

/// Requests as values, in order.
pub open spec fn requests(list: Seq<Request>) -> Seq<RequestModel> {
    list.map_values(|r: Request| r@)
}

} // verus!
