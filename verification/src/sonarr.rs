//! Sonarr's own records, and how single values of them are shown.

use vstd::prelude::*;
use vstd::string::*;

use crate::arr::calendar::{has_come, not_after};
use crate::arr::display::{quality_name, quality_text, year_label, year_text};
use crate::arr::models::{Language, MediaInfo, QualityWrapper, QueueItem};
use crate::text::{
    decimal, decimal_int, join, joined, opt_text, padded, push_decimal, push_int, push_opt,
    push_padded, push_part, texts, with_opt, with_part,
};

verus! {

/// One show of the library, or of a lookup.
#[derive(Debug, Default)]
pub struct Series {
    pub id: i64,
    pub title: Option<String>,
    pub year: Option<i32>,
    pub overview: Option<String>,
    /// The rating as it is shown ("8.1"), where there is one.
    pub rating: Option<String>,
    pub monitored: bool,
    pub seasons: Vec<Season>,
    pub root_folder_path: Option<String>,
    pub quality_profile_id: i64,
    pub series_type: Option<String>,
    pub season_folder: bool,
}

/// One season of a show.
#[derive(Debug, Clone, Copy, PartialEq, Eq, Structural)]
pub struct Season {
    pub season_number: i32,
    pub monitored: bool,
    /// Episodes that have a file, and episodes that should have one.
    pub file_count: i32,
    pub episode_count: i32,
}

/// One episode of a season.
#[derive(Debug, Default)]
pub struct Episode {
    pub id: i64,
    pub season_number: i32,
    pub episode_number: i32,
    pub title: Option<String>,
    pub overview: Option<String>,
    /// The local air date, "2024-01-02".
    pub air_date: Option<String>,
    /// The moment it airs, "2024-01-02T03:00:00Z".
    pub air_date_utc: Option<String>,
    /// Minutes.
    pub runtime: Option<i32>,
    pub monitored: bool,
    pub episode_file: Option<EpisodeFile>,
}

/// The file of a downloaded episode.
#[derive(Debug, Default)]
pub struct EpisodeFile {
    pub id: i64,
    pub path: Option<String>,
    /// Bytes.
    pub size: i64,
    pub quality: Option<QualityWrapper>,
    /// Newer servers send a list; older ones a single `language` object.
    pub languages: Vec<Language>,
    pub language: Option<Language>,
    pub media_info: Option<MediaInfo>,
}

/// What the list shows of an episode's availability.
#[derive(Debug)]
pub enum EpStatus {
    /// The quality it was downloaded at.
    Downloaded(String),
    /// Percent downloaded.
    Downloading(u8),
    Missing,
    Unaired,
}

/// An availability as values.
#[verifier::ext_equal]
pub enum EpStatusModel {
    Downloaded(Seq<char>),
    Downloading(u8),
    Missing,
    Unaired,
}

impl View for EpStatus {
    type V = EpStatusModel;

    open spec fn view(&self) -> EpStatusModel {
        match self {
            EpStatus::Downloaded(quality) => EpStatusModel::Downloaded(quality@),
            EpStatus::Downloading(percent) => EpStatusModel::Downloading(*percent),
            EpStatus::Missing => EpStatusModel::Missing,
            EpStatus::Unaired => EpStatusModel::Unaired,
        }
    }
}

/// "Specials", "Season 3".
pub open spec fn season_text(number: i32) -> Seq<char> {
    if number == 0 {
        "Specials"@
    } else {
        "Season "@ + decimal_int(number as int)
    }
}

/// "Specials", "Season 3".
pub fn season_name(number: i32) -> (name: String)
    ensures
        name@ == season_text(number),
{
    if number == 0 {
        "Specials".to_owned()
    } else {
        let mut name: String = "Season ".to_owned();
        push_int(&mut name, number as i64);
        name
    }
}

/// "Season 3 (8/10)".
pub open spec fn season_label_text(season: Season) -> Seq<char> {
    season_text(season.season_number) + " ("@ + decimal_int(season.file_count as int) + "/"@
        + decimal_int(season.episode_count as int) + ")"@
}

/// "Season 3 (8/10)".
pub fn season_label(season: &Season) -> (label: String)
    ensures
        label@ == season_label_text(*season),
{
    let mut label: String = season_name(season.season_number);
    label.append(" (");
    push_int(&mut label, season.file_count as i64);
    label.append("/");
    push_int(&mut label, season.episode_count as i64);
    label.append(")");
    label
}

/// "S01E02".
pub open spec fn code_text(season: i32, episode: i32) -> Seq<char> {
    "S"@ + padded(season as int, 2) + "E"@ + padded(episode as int, 2)
}

/// "S01E02".
pub fn episode_code(season: i32, episode: i32) -> (code: String)
    ensures
        code@ == code_text(season, episode),
{
    let mut code: String = "S".to_owned();
    push_padded(&mut code, season as i64, 2);
    code.append("E");
    push_padded(&mut code, episode as i64, 2);
    code
}

/// "2024 • 8.1 • 3 seasons", as far as known.
pub open spec fn series_meta_text(series: Series) -> Seq<char> {
    let dated = with_opt(Seq::empty(), year_text(series.year));
    let rated = with_opt(dated, opt_text(series.rating));
    joined(with_part(rated, decimal(series.seasons@.len()) + " seasons"@), " • "@)
}

/// "2024 • 8.1 • 3 seasons", as far as known.
pub fn series_meta(series: &Series) -> (text: String)
    ensures
        text@ == series_meta_text(*series),
{
    let mut parts: Vec<String> = Vec::new();
    assert(texts(parts@) =~= Seq::empty());
    push_opt(&mut parts, year_label(series.year));
    push_opt(&mut parts, series.rating.clone());
    let mut count: String = String::new();
    push_decimal(&mut count, series.seasons.len() as u64);
    count.append(" seasons");
    assert(count@ =~= decimal(series.seasons@.len()) + " seasons"@);
    push_part(&mut parts, count);
    join(&parts, " • ")
}

/// Whether something is watched for, in words.
pub open spec fn monitored_text(monitored: bool) -> &'static str {
    if monitored {
        "monitored"
    } else {
        "unmonitored"
    }
}

/// Whether something is watched for, in words.
pub fn monitored_label(monitored: bool) -> (label: &'static str)
    ensures
        label == monitored_text(monitored),
{
    if monitored {
        "monitored"
    } else {
        "unmonitored"
    }
}

/// The first download of an episode in the queue.
pub open spec fn queued_episode(queue: Seq<QueueItem>, episode_id: i64) -> Option<QueueItem>
    decreases queue.len(),
{
    if queue.len() == 0 {
        None
    } else if queue[0].episode_id == Some(episode_id) {
        Some(queue[0])
    } else {
        queued_episode(queue.drop_first(), episode_id)
    }
}

/// The first download of an episode in the queue.
pub fn episode_queue_entry(queue: &Vec<QueueItem>, episode_id: i64) -> (item: Option<&QueueItem>)
    ensures
        match item {
            Some(item) => queued_episode(queue@, episode_id) == Some(*item),
            None => queued_episode(queue@, episode_id) is None,
        },
{
    let mut i: usize = 0;
    assert(queue@.skip(0) =~= queue@);
    while i < queue.len()
        invariant
            i <= queue@.len(),
            queued_episode(queue@.skip(i as int), episode_id) == queued_episode(
                queue@,
                episode_id,
            ),
        decreases queue@.len() - i,
    {
        if queue[i].episode_id == Some(episode_id) {
            return Some(&queue[i]);
        }
        assert(queue@.skip(i as int).drop_first() =~= queue@.skip(i + 1));
        i += 1;
    }
    None
}

/// Whether a queue item is a download of a season.
pub open spec fn is_of_season(item: QueueItem, series_id: i64, season_number: i32) -> bool {
    item.series_id == Some(series_id) && item.episode is Some && item.episode->0.season_number
        == season_number
}

/// Whether anything of a season is being downloaded.
pub fn season_downloading(queue: &Vec<QueueItem>, series_id: i64, season_number: i32) -> (answer: bool)
    ensures
        answer == exists|i: int|
            0 <= i < queue@.len() && is_of_season(#[trigger] queue@[i], series_id, season_number),
{
    let mut i: usize = 0;
    while i < queue.len()
        invariant
            i <= queue@.len(),
            forall|j: int|
                0 <= j < i ==> !is_of_season(#[trigger] queue@[j], series_id, season_number),
        decreases queue@.len() - i,
    {
        if queue[i].series_id == Some(series_id) {
            if let Some(episode) = &queue[i].episode {
                if episode.season_number == season_number {
                    assert(is_of_season(queue@[i as int], series_id, season_number));
                    return true;
                }
            }
        }
        i += 1;
    }
    false
}

/// An episode's availability: its file first, then a download, then whether it
/// has aired. One without an air date has not.
pub open spec fn status_of(
    episode: Episode,
    download: Option<QueueItem>,
    now: Seq<char>,
) -> EpStatusModel {
    match episode.episode_file {
        Some(file) => EpStatusModel::Downloaded(
            match quality_text(file.quality) {
                Some(quality) => quality,
                None => "downloaded"@,
            },
        ),
        None => match download {
            Some(item) => EpStatusModel::Downloading(item.progress),
            None => if episode.air_date_utc is Some && not_after(
                episode.air_date_utc->0@,
                now,
            ) {
                EpStatusModel::Missing
            } else {
                EpStatusModel::Unaired
            },
        },
    }
}

/// An episode's availability at a moment, given as an ISO text.
pub fn episode_status(episode: &Episode, download: Option<&QueueItem>, now: &str) -> (status:
    EpStatus)
    ensures
        status@ == status_of(
            *episode,
            (match download {
                Some(item) => Some(*item),
                None => None,
            }),
            now@,
        ),
{
    if let Some(file) = &episode.episode_file {
        return EpStatus::Downloaded(
            match quality_name(&file.quality) {
                Some(quality) => quality,
                None => "downloaded".to_owned(),
            },
        );
    }
    match download {
        Some(item) => EpStatus::Downloading(item.progress),
        None => match &episode.air_date_utc {
            Some(moment) => if has_come(moment.as_str(), now) {
                EpStatus::Missing
            } else {
                EpStatus::Unaired
            },
            None => EpStatus::Unaired,
        },
    }
}

/// The download shown for an episode is the first of the queue that belongs to it;
/// where none belongs to it there is none.
pub proof fn law_the_first_download_of_an_episode_counts(queue: Seq<QueueItem>, id: i64)
    ensures
        match queued_episode(queue, id) {
            Some(item) => exists|i: int|
                #![trigger queue[i]]
                0 <= i < queue.len() && queue[i] == item && queue[i].episode_id == Some(id)
                    && forall|j: int| 0 <= j < i ==> (#[trigger] queue[j]).episode_id != Some(id),
            None => forall|i: int| 0 <= i < queue.len() ==> (#[trigger] queue[i]).episode_id != Some(
                id,
            ),
        },
    decreases queue.len(),
{
    if queue.len() > 0 {
        if queue[0].episode_id == Some(id) {
            assert(queue[0].episode_id == Some(id));
        } else {
            let rest = queue.drop_first();
            law_the_first_download_of_an_episode_counts(rest, id);
            match queued_episode(rest, id) {
                Some(item) => {
                    let i = choose|i: int|
                        #![trigger rest[i]]
                        0 <= i < rest.len() && rest[i] == item && rest[i].episode_id == Some(id)
                            && forall|j: int|
                            0 <= j < i ==> (#[trigger] rest[j]).episode_id != Some(id);
                    assert(queue[i + 1] == rest[i]);
                    assert forall|j: int| 0 <= j < i + 1 implies (#[trigger] queue[j]).episode_id
                        != Some(id) by {
                        if j > 0 {
                            assert(rest[j - 1] == queue[j]);
                        }
                    }
                },
                None => {
                    assert forall|j: int| 0 <= j < queue.len() implies (#[trigger] queue[j]).episode_id
                        != Some(id) by {
                        if j > 0 {
                            assert(rest[j - 1] == queue[j]);
                        }
                    }
                },
            }
        }
    }
}

/// A season is downloading where the queue holds an episode of that season of
/// that series; a download of another season, or of another series, is none.
pub proof fn law_downloads_belong_to_one_season(
    item: QueueItem,
    series_id: i64,
    season_number: i32,
    other_series: i64,
    other_season: i32,
)
    requires
        is_of_season(item, series_id, season_number),
    ensures
        item.series_id == Some(series_id),
        is_of_season(item, other_series, other_season) <==> other_series == series_id
            && other_season == season_number,
{
}

/// An episode is downloaded where it has a file, downloading where it has none
/// but is in the queue, missing where it has neither and has aired, and unaired
/// otherwise; a download tells its own progress.
pub proof fn law_what_is_there_comes_before_what_is_coming(
    episode: Episode,
    download: Option<QueueItem>,
    now: Seq<char>,
)
    ensures
        ({
            let status = status_of(episode, download, now);
            let aired = episode.air_date_utc is Some && not_after(episode.air_date_utc->0@, now);
            &&& status is Downloaded <==> episode.episode_file is Some
            &&& status is Downloading <==> episode.episode_file is None && download is Some
            &&& status is Missing <==> episode.episode_file is None && download is None && aired
            &&& status is Unaired <==> episode.episode_file is None && download is None && !aired
            &&& status is Downloading ==> status->Downloading_0 == download->0.progress
            &&& status is Downloaded && episode.episode_file->0.quality is None
                ==> status->Downloaded_0 == "downloaded"@
        }),
{
}

} // verus!
