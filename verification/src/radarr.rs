//! Radarr's own records, and how single values of them are shown.

use vstd::prelude::*;
use vstd::string::*;

use crate::arr::calendar::{has_come, not_after};
use crate::arr::display::{quality_name, quality_text, year_label, year_text};
use crate::arr::models::{Language, MediaInfo, QualityWrapper, QueueItem};
use crate::text::{join, joined, opt_text, push_opt, texts, with_opt};

verus! {

/// One movie of the library, or of a lookup.
#[derive(Debug, Default)]
pub struct Movie {
    pub id: i64,
    pub title: Option<String>,
    pub year: Option<i32>,
    pub overview: Option<String>,
    /// The rating as it is shown ("8.1"), where there is one.
    pub rating: Option<String>,
    /// The running time as it is shown.
    pub runtime: Option<String>,
    /// The day it comes out, "2024-01-02", where it is known.
    pub release_date: Option<String>,
    pub movie_file: Option<MovieFile>,
}

/// The file of a downloaded movie.
#[derive(Debug, Default)]
pub struct MovieFile {
    pub id: i64,
    pub path: Option<String>,
    /// Bytes.
    pub size: i64,
    pub quality: Option<QualityWrapper>,
    /// Newer servers send a list; older ones a single `language` object.
    pub languages: Vec<Language>,
    pub language: Option<Language>,
    pub media_info: Option<MediaInfo>,
    pub edition: Option<String>,
}

/// What the list shows of a movie's availability.
#[derive(Debug)]
pub enum MovieStatus {
    /// The quality it was downloaded at.
    Downloaded(String),
    /// Percent downloaded.
    Downloading(u8),
    Missing,
    /// The release date, where it is known.
    Unreleased(Option<String>),
}

/// An availability as values.
#[verifier::ext_equal]
pub enum MovieStatusModel {
    Downloaded(Seq<char>),
    Downloading(u8),
    Missing,
    Unreleased(Option<Seq<char>>),
}

impl View for MovieStatus {
    type V = MovieStatusModel;

    open spec fn view(&self) -> MovieStatusModel {
        match self {
            MovieStatus::Downloaded(quality) => MovieStatusModel::Downloaded(quality@),
            MovieStatus::Downloading(percent) => MovieStatusModel::Downloading(*percent),
            MovieStatus::Missing => MovieStatusModel::Missing,
            MovieStatus::Unreleased(date) => MovieStatusModel::Unreleased(opt_text(*date)),
        }
    }
}

/// "2024 • 8.1 • 1h 42m", as far as known.
pub open spec fn movie_meta_text(movie: Movie) -> Seq<char> {
    let dated = with_opt(Seq::empty(), year_text(movie.year));
    let rated = with_opt(dated, opt_text(movie.rating));
    joined(with_opt(rated, opt_text(movie.runtime)), " • "@)
}

/// "2024 • 8.1 • 1h 42m", as far as known.
pub fn movie_meta(movie: &Movie) -> (text: String)
    ensures
        text@ == movie_meta_text(*movie),
{
    let mut parts: Vec<String> = Vec::new();
    assert(texts(parts@) =~= Seq::empty());
    push_opt(&mut parts, year_label(movie.year));
    push_opt(&mut parts, movie.rating.clone());
    push_opt(&mut parts, movie.runtime.clone());
    join(&parts, " • ")
}

/// The first download of a movie in the queue.
pub open spec fn queued_movie(queue: Seq<QueueItem>, movie_id: i64) -> Option<QueueItem>
    decreases queue.len(),
{
    if queue.len() == 0 {
        None
    } else if queue[0].movie_id == Some(movie_id) {
        Some(queue[0])
    } else {
        queued_movie(queue.drop_first(), movie_id)
    }
}

/// The first download of a movie in the queue.
pub fn movie_queue_entry(queue: &Vec<QueueItem>, movie_id: i64) -> (item: Option<&QueueItem>)
    ensures
        match item {
            Some(item) => queued_movie(queue@, movie_id) == Some(*item),
            None => queued_movie(queue@, movie_id) is None,
        },
{
    let mut i: usize = 0;
    assert(queue@.skip(0) =~= queue@);
    while i < queue.len()
        invariant
            i <= queue@.len(),
            queued_movie(queue@.skip(i as int), movie_id) == queued_movie(queue@, movie_id),
        decreases queue@.len() - i,
    {
        if queue[i].movie_id == Some(movie_id) {
            return Some(&queue[i]);
        }
        assert(queue@.skip(i as int).drop_first() =~= queue@.skip(i + 1));
        i += 1;
    }
    None
}

/// A movie's availability: its file first, then a download, then whether it is
/// out. One without a release date is not.
pub open spec fn movie_status_of(
    movie: Movie,
    download: Option<QueueItem>,
    now: Seq<char>,
) -> MovieStatusModel {
    match movie.movie_file {
        Some(file) => MovieStatusModel::Downloaded(
            match quality_text(file.quality) {
                Some(quality) => quality,
                None => "downloaded"@,
            },
        ),
        None => match download {
            Some(item) => MovieStatusModel::Downloading(item.progress),
            None => match movie.release_date {
                Some(date) => if not_after(date@, now) {
                    MovieStatusModel::Missing
                } else {
                    MovieStatusModel::Unreleased(Some(date@))
                },
                None => MovieStatusModel::Unreleased(None),
            },
        },
    }
}

/// A movie's availability at a moment, given as an ISO text.
pub fn movie_status(movie: &Movie, download: Option<&QueueItem>, now: &str) -> (status: MovieStatus)
    ensures
        status@ == movie_status_of(
            *movie,
            (match download {
                Some(item) => Some(*item),
                None => None,
            }),
            now@,
        ),
{
    if let Some(file) = &movie.movie_file {
        return MovieStatus::Downloaded(
            match quality_name(&file.quality) {
                Some(quality) => quality,
                None => "downloaded".to_owned(),
            },
        );
    }
    match download {
        Some(item) => MovieStatus::Downloading(item.progress),
        None => match &movie.release_date {
            Some(date) => if has_come(date.as_str(), now) {
                MovieStatus::Missing
            } else {
                MovieStatus::Unreleased(Some(date.clone()))
            },
            None => MovieStatus::Unreleased(None),
        },
    }
}

/// The download shown for a movie is the first of the queue that belongs to it;
/// where none belongs to it there is none.
pub proof fn law_the_first_download_of_a_movie_counts(queue: Seq<QueueItem>, id: i64)
    ensures
        match queued_movie(queue, id) {
            Some(item) => exists|i: int|
                #![trigger queue[i]]
                0 <= i < queue.len() && queue[i] == item && queue[i].movie_id == Some(id)
                    && forall|j: int| 0 <= j < i ==> (#[trigger] queue[j]).movie_id != Some(id),
            None => forall|i: int| 0 <= i < queue.len() ==> (#[trigger] queue[i]).movie_id != Some(
                id,
            ),
        },
    decreases queue.len(),
{
    if queue.len() > 0 {
        if queue[0].movie_id == Some(id) {
            assert(queue[0].movie_id == Some(id));
        } else {
            let rest = queue.drop_first();
            law_the_first_download_of_a_movie_counts(rest, id);
            match queued_movie(rest, id) {
                Some(item) => {
                    let i = choose|i: int|
                        #![trigger rest[i]]
                        0 <= i < rest.len() && rest[i] == item && rest[i].movie_id == Some(id)
                            && forall|j: int|
                            0 <= j < i ==> (#[trigger] rest[j]).movie_id != Some(id);
                    assert(queue[i + 1] == rest[i]);
                    assert forall|j: int| 0 <= j < i + 1 implies (#[trigger] queue[j]).movie_id
                        != Some(id) by {
                        if j > 0 {
                            assert(rest[j - 1] == queue[j]);
                        }
                    }
                },
                None => {
                    assert forall|j: int| 0 <= j < queue.len() implies (#[trigger] queue[j]).movie_id
                        != Some(id) by {
                        if j > 0 {
                            assert(rest[j - 1] == queue[j]);
                        }
                    }
                },
            }
        }
    }
}

/// A movie is downloaded where it has a file, downloading where it has none but
/// is in the queue, missing where it has neither and its release date has come,
/// and unreleased otherwise; a download tells its own progress.
pub proof fn law_what_is_there_comes_before_what_is_coming(
    movie: Movie,
    download: Option<QueueItem>,
    now: Seq<char>,
)
    ensures
        ({
            let status = movie_status_of(movie, download, now);
            let came = movie.release_date is Some && not_after(movie.release_date->0@, now);
            &&& status is Downloaded <==> movie.movie_file is Some
            &&& status is Downloading <==> movie.movie_file is None && download is Some
            &&& status is Missing <==> movie.movie_file is None && download is None && came
            &&& status is Unreleased <==> movie.movie_file is None && download is None && !came
            &&& status is Downloading ==> status->Downloading_0 == download->0.progress
            &&& status is Downloaded && movie.movie_file->0.quality is None
                ==> status->Downloaded_0 == "downloaded"@
            &&& status is Unreleased ==> status->Unreleased_0 == opt_text(movie.release_date)
        }),
{
}

} // verus!
