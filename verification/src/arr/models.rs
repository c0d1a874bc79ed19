//! The records that Sonarr and Radarr send, as far as the screens read them.
//! Everything may be missing, since server versions differ; version splits
//! (a single `language` against a `languages` list) carry both fields.

use vstd::prelude::*;

verus! {

#[derive(Debug, Default)]
pub struct QualityWrapper {
    pub quality: Quality,
}

#[derive(Debug, Default)]
pub struct Quality {
    pub name: Option<String>,
}

#[derive(Debug, Default)]
pub struct Language {
    pub name: Option<String>,
}

/// Technical details of a media file.
#[derive(Debug, Default)]
pub struct MediaInfo {
    pub video_codec: Option<String>,
    /// e.g. "1920x1080".
    pub resolution: Option<String>,
    /// Newer servers only.
    pub video_dynamic_range: Option<String>,
    pub audio_codec: Option<String>,
    /// The channel count as it is shown ("2", "5.1").
    pub audio_channels: Option<String>,
    /// Slash-separated language codes, e.g. "eng/jpn".
    pub audio_languages: Option<String>,
    pub subtitles: Option<String>,
    /// e.g. "23:41".
    pub run_time: Option<String>,
}

/// Envelope of the paginated endpoints (queue, Sonarr history).
#[derive(Debug, Default)]
pub struct Page<T> {
    pub total_records: i64,
    pub records: Vec<T>,
}

/// One download in the queue. A superset of both backends: Sonarr fills the
/// series/episode fields, Radarr fills `movie_id`; the other side stays None.
#[derive(Debug, Default)]
pub struct QueueItem {
    pub id: i64,
    pub series_id: Option<i64>,
    pub episode_id: Option<i64>,
    pub movie_id: Option<i64>,
    /// Percent downloaded, from 0 to 100.
    pub progress: u8,
    pub status: Option<String>,
    pub title: Option<String>,
    /// Both backends carry the release languages inline on the queue record.
    pub languages: Vec<Language>,
    pub quality: Option<QualityWrapper>,
    /// Remaining time, "HH:MM:SS" or "d.HH:MM:SS"; absent once finished or
    /// while stalled.
    pub timeleft: Option<String>,
    /// The download lifecycle stage ("downloading", "importing", ...) —
    /// finer-grained than `status`.
    pub tracked_download_state: Option<String>,
    /// "ok" | "warning" | "error"; drives the warning marker in the view.
    pub tracked_download_status: Option<String>,
    /// Present when a Sonarr queue is requested with its episodes.
    pub episode: Option<QueueEpisode>,
}

#[derive(Debug, Default)]
pub struct QueueEpisode {
    pub id: i64,
    pub season_number: i32,
    pub episode_number: i32,
    pub title: Option<String>,
}

/// One result of an interactive search.
#[derive(Debug, Default)]
pub struct Release {
    pub guid: String,
    pub indexer_id: i64,
    pub title: Option<String>,
    /// Age in whole days.
    pub age: i64,
    /// Bytes.
    pub size: i64,
    pub indexer: Option<String>,
    /// "torrent" or "usenet"; seeders/leechers only mean anything on torrents.
    pub protocol: Option<String>,
    pub seeders: Option<i32>,
    pub leechers: Option<i32>,
    /// Newer servers send a list; older ones a single `language` object.
    pub languages: Vec<Language>,
    pub language: Option<Language>,
    pub quality: Option<QualityWrapper>,
    pub rejected: bool,
    pub rejections: Vec<String>,
}

/// One event of an item's history.
#[derive(Debug, Default)]
pub struct HistoryRecord {
    /// The release title the event was recorded under.
    pub source_title: Option<String>,
    /// "grabbed", "downloadFolderImported", ...
    pub event_type: Option<String>,
    /// The release guid that grabbed events carry in their details.
    pub guid: Option<String>,
}

/// A configured library root, offered as a target when adding a new item.
#[derive(Debug, Default)]
pub struct RootFolder {
    pub path: String,
    pub accessible: bool,
}

/// A named quality profile the add flow lets the user pick by name.
#[derive(Debug, Default)]
pub struct QualityProfile {
    pub id: i64,
    pub name: String,
}

/// A server command: its id, and its status as the server words it.
#[derive(Debug, Default)]
pub struct Command {
    pub id: i64,
    pub status: Option<String>,
}

} // verus!
