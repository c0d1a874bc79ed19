//! What the Radarr browse screen shows: its rows as texts in tones, and the
//! hints of its keys.

use vstd::prelude::*;
use vstd::string::*;

use crate::apps::downloads::{download_entry, DownloadRow, RowModel};
use crate::apps::radarr::browse::{find_movie, AddStep, Browse, Confirm, Level};
use crate::apps::radarr::state::{movie_with_id, title_of, BrowseModel};
use crate::arr::models::{QualityProfile, QueueItem, RootFolder};
use crate::arr::rows::{
    base_rows, found_entry, found_row, media_rows, path_labels, profile_labels, push_base_rows,
    push_media_rows, release_entry, release_row,
};
use crate::radarr::{
    movie_meta, movie_meta_text, movie_queue_entry, movie_status, movie_status_of, queued_movie,
    Movie, MovieFile, MovieStatus, MovieStatusModel,
};
use crate::text::{blank, decimal, is_blank, opt_text, push_decimal, text_or, texts};
use crate::ui::help::Hint;
use crate::ui::line::{shown, shown_lines, span, LineModel, Span, Tone};
use crate::ui::list::{per_page, smaller, window_end, window_start};
use crate::ui::rows::{
    dashed, detail_tone, entry_models, gutter, gutter_span, header, header_lines, height_below,
    indented_lines, inner_width, labelled, labelled_lines, lemma_entry_added, or_dash, page_bounds,
    pair, push_indented, push_labelled, push_line, rows_below, shown_title, width_within, Entry,
    EntryModel,
};
use crate::ui::text::{set_lines, spaced_words, truncate, truncated, wrap_text};

verus! {

impl BrowseModel {
    /// The hints of a field, prompt or popup that takes every key.
    pub open spec fn modal_hints(self) -> Option<Seq<Hint>> {
        if self.filter.focused {
            Some(seq![("esc", "cancel"), ("enter", "apply")])
        } else if self.add.search_focused {
            Some(seq![("esc", "unfocus"), ("enter", "search")])
        } else if self.add.flow is Some {
            Some(seq![("j/k", "move"), ("enter", "next"), ("esc", "cancel")])
        } else if self.popups.confirm is Some {
            Some(seq![("y/enter", "confirm"), ("n/esc", "cancel")])
        } else if self.popups.delete_prompt is Some {
            Some(
                seq![
                    ("j/k", "move"),
                    ("space", "toggle"),
                    ("enter", "delete"),
                    ("esc", "cancel"),
                ],
            )
        } else if self.downloads.prompt is Some {
            Some(
                seq![
                    ("j/k", "move"),
                    ("space", "toggle"),
                    ("enter", "remove"),
                    ("esc", "cancel"),
                ],
            )
        } else if self.popups.sort_menu is Some || self.popups.search_menu is Some {
            Some(seq![("esc", "close"), ("enter", "select")])
        } else if self.popups.rejections is Some {
            Some(seq![("esc", "close")])
        } else if self.overview.fullscreen {
            Some(seq![("esc/v", "back"), ("j/k", "scroll")])
        } else {
            None
        }
    }

    /// The hints of the level itself.
    pub open spec fn level_hints(self) -> Seq<Hint> {
        match self.level {
            Level::MovieList => {
                let head: Seq<Hint> = seq![
                    ("enter", "open"),
                    ("a", "add"),
                    ("d", "downloads"),
                    ("/", "filter"),
                ];
                let clear: Seq<Hint> = if self.filter.active {
                    head.push(("esc", "clear"))
                } else {
                    head
                };
                clear.push(("s", "sort"))
            },
            Level::Downloads => seq![("esc", "back"), ("space", "mark"), ("x", "remove")],
            Level::MovieDetail { movie } => {
                let head: Seq<Hint> = seq![("esc", "back"), ("enter", "search")];
                let file: Seq<Hint> = if movie.movie_file is Some {
                    head.push(("x", "delete file"))
                } else {
                    head
                };
                file.push(("z", "delete")).push(("v", "overview"))
            },
            Level::Search { .. } => {
                let head: Seq<Hint> = seq![("esc", "back"), ("enter", "download")];
                if self.has_rejections() {
                    head.push(("x", "rejections"))
                } else {
                    head
                }
            },
            Level::Add => seq![("enter", "add"), ("/", "search"), ("esc", "back")],
        }
    }

    /// The hints shown at the foot of the screen.
    pub open spec fn hints(self) -> Seq<Hint> {
        match self.modal_hints() {
            Some(hints) => hints,
            None => self.level_hints().push(("r", "refresh")).push(
                (
                    "?",
                    if self.status.show_full_help {
                        "close help"
                    } else {
                        "help"
                    },
                ),
            ).push(("q", "quit")),
        }
    }

    /// Where the user is, as a path.
    pub open spec fn breadcrumb(self) -> Seq<char> {
        match self.level {
            Level::MovieList => "Movies"@,
            Level::MovieDetail { movie } => title_of(*movie),
            Level::Search { movie } => title_of(*movie) + " / search"@,
            Level::Add => if self.add.search.value.len() == 0 {
                "Add movie"@
            } else {
                "Add movie / "@ + self.add.search.value
            },
            Level::Downloads => if self.downloads.marks.len() > 0 {
                "Downloads ("@ + decimal(self.downloads.marks.len()) + " marked)"@
            } else {
                "Downloads ("@ + decimal(self.lists.queue.len()) + ")"@
            },
        }
    }

    /// The row above the breadcrumb: an error before a notice.
    pub open spec fn message(self) -> Option<(Seq<char>, Tone)> {
        if self.status.error is Some {
            Some(("Error: "@ + self.status.error->0, Tone::Error))
        } else if self.status.notice is Some {
            Some((self.status.notice->0@, Tone::Accent))
        } else {
            None
        }
    }

    /// How the rows of the screen are shared out.
    pub open spec fn layout(self) -> ScreenLayout {
        let filter = self.filter.active && self.level is MovieList;
        ScreenLayout {
            message_rows: if self.status.error is Some || self.status.notice is Some {
                1
            } else {
                0
            },
            input: if filter {
                InputRow::Filter
            } else if self.level is Add {
                InputRow::Search
            } else {
                InputRow::Absent
            },
            body: if self.overview.fullscreen {
                Body::Overview
            } else {
                match self.level {
                    Level::MovieList => Body::MovieList,
                    Level::MovieDetail { .. } => Body::MovieDetail,
                    Level::Search { .. } => Body::Search,
                    Level::Add => Body::AddResults,
                    Level::Downloads => Body::Downloads,
                }
            },
            help_rows: if self.status.show_full_help {
                8
            } else {
                1
            },
        }
    }

    /// The question of the open confirmation.
    pub open spec fn confirm_question(self) -> Option<&'static str> {
        match self.popups.confirm {
            None => None,
            Some(Confirm::DeleteFile { .. }) => Some("Delete this movie file?"),
            Some(Confirm::Grab { index }) => if index < self.lists.releases.len()
                && self.lists.releases[index as int].rejected {
                Some("Release has rejections. Download anyway?")
            } else {
                Some("Download this release?")
            },
        }
    }

    /// The title of the wizard's current step.
    pub open spec fn step_title(self) -> &'static str {
        match self.add.flow {
            None => "",
            Some(flow) => match flow.step {
                AddStep::RootFolder => "Root folder",
                AddStep::QualityProfile => "Quality profile",
                AddStep::MinAvailability => "Minimum availability",
                AddStep::Monitored => "Monitor this movie?",
                AddStep::Download => "Search & download now?",
            },
        }
    }

    /// The options of the wizard's current step.
    pub open spec fn step_labels(self) -> Seq<Seq<char>> {
        match self.add.flow {
            None => Seq::empty(),
            Some(flow) => match flow.step {
                AddStep::RootFolder => self.add.root_folders.map_values(
                    |f: RootFolder| f.path@,
                ),
                AddStep::QualityProfile => self.add.quality_profiles.map_values(
                    |p: QualityProfile| p.name@,
                ),
                AddStep::MinAvailability => seq![
                    "Announced"@,
                    "In Cinemas"@,
                    "Released"@,
                ],
                AddStep::Monitored | AddStep::Download => seq!["Yes"@, "No"@],
            },
        }
    }

    /// What an empty list says.
    pub open spec fn empty_message(self) -> &'static str {
        match self.level {
            Level::Search { .. } => if self.status.loading {
                "  Searching indexers... this can take a while."
            } else {
                "  No releases found."
            },
            Level::Add => if self.status.loading {
                "  Searching..."
            } else if blank(self.add.search.value) {
                "  Type a title or tmdb:<id>, then enter to search."
            } else {
                "  No results."
            },
            Level::Downloads => "  No active downloads.",
            _ => if self.status.loading {
                "  Loading..."
            } else {
                "  No movies."
            },
        }
    }

    /// The name shown for a download: its movie's title, else the release's.
    pub open spec fn download_name(self, item: QueueItem) -> Seq<char> {
        let known = match item.movie_id {
            Some(id) => match movie_with_id(self.lists.all_movies, id) {
                Some(movie) => opt_text(movie.title),
                None => None,
            },
            None => None,
        };
        match known {
            Some(title) => title,
            None => match item.title {
                Some(title) => title@,
                None => "(unknown)"@,
            },
        }
    }

    /// The row pieces of a download: a movie has no episode.
    pub open spec fn download_pieces(self, item: QueueItem) -> RowModel {
        RowModel { name: self.download_name(item), code: None, episode_title: None }
    }

    /// The movies on screen.
    pub open spec fn movie_rows(self, now: Seq<char>, width: u16, height: u16) -> Seq<EntryModel> {
        let all = self.lists.movies;
        let (first, end) = page_bounds(self.lists.movie_cursor, all.len(), height, 3);
        Seq::new(
            (end - first) as nat,
            |k: int|
                movie_row(
                    *all[first + k],
                    movie_status_of(
                        *all[first + k],
                        queued_movie(self.lists.queue, all[first + k].id),
                        now,
                    ),
                    first + k == self.lists.movie_cursor,
                    width,
                ),
        )
    }

    /// The search results on screen.
    pub open spec fn release_rows(self, width: u16, height: u16) -> Seq<EntryModel> {
        let all = self.lists.releases;
        let (first, end) = page_bounds(self.lists.release_cursor, all.len(), height, 3);
        Seq::new(
            (end - first) as nat,
            |k: int|
                release_row(
                    all[first + k],
                    self.lists.history,
                    first + k == self.lists.release_cursor,
                    detail_tone(first + k == self.lists.release_cursor),
                    inner_width(width, 6),
                ),
        )
    }

    /// The lookup results on screen.
    pub open spec fn add_rows(self, width: u16, height: u16) -> Seq<EntryModel> {
        let all = self.add.results;
        let (first, end) = page_bounds(self.add.cursor, all.len(), height, 4);
        Seq::new(
            (end - first) as nat,
            |k: int| add_row(*all[first + k], first + k == self.add.cursor, width),
        )
    }

    /// The downloads on screen.
    pub open spec fn download_rows(self, width: u16, height: u16) -> Seq<EntryModel> {
        let all = self.lists.queue;
        let (first, end) = page_bounds(self.downloads.cursor, all.len(), height, 3);
        Seq::new(
            (end - first) as nat,
            |k: int|
                download_entry(
                    all[first + k],
                    self.download_pieces(all[first + k]),
                    first + k == self.downloads.cursor,
                    self.downloads.marks.contains(all[first + k].id),
                    width,
                ),
        )
    }
}

/// What stands between the breadcrumb and the body.
#[derive(Debug, Clone, Copy, PartialEq, Eq, Structural)]
pub enum InputRow {
    Absent,
    Filter,
    Search,
}

/// What fills the middle of the screen.
#[derive(Debug, Clone, Copy, PartialEq, Eq, Structural)]
pub enum Body {
    Overview,
    MovieList,
    MovieDetail,
    Search,
    AddResults,
    Downloads,
}

/// How the rows of the screen are shared out: the message, the input field,
/// the body and the help.
#[derive(Debug, Clone, Copy, PartialEq, Eq, Structural)]
pub struct ScreenLayout {
    pub message_rows: u16,
    pub input: InputRow,
    pub body: Body,
    pub help_rows: u16,
}

/// A status as it is shown at the right of a row.
pub open spec fn status_text(status: MovieStatusModel) -> (Seq<char>, Tone) {
    match status {
        MovieStatusModel::Downloaded(quality) => (quality, Tone::Fg),
        MovieStatusModel::Downloading(percent) => (
            "↓ "@ + decimal(percent as nat) + "%"@,
            Tone::AccentBright,
        ),
        MovieStatusModel::Missing => ("missing"@, Tone::Error),
        MovieStatusModel::Unreleased(date) => (
            match date {
                Some(date) => "unreleased "@ + date,
                None => "unreleased"@,
            },
            Tone::Dim,
        ),
    }
}

pub fn status_span(status: &MovieStatus) -> (s: Span)
    ensures
        s@ == status_text(status@),
{
    match status {
        MovieStatus::Downloaded(quality) => span(quality.clone(), Tone::Fg),
        MovieStatus::Downloading(percent) => {
            let mut text: String = "↓ ".to_owned();
            push_decimal(&mut text, *percent as u64);
            text.append("%");
            span(text, Tone::AccentBright)
        },
        MovieStatus::Missing => span("missing".to_owned(), Tone::Error),
        MovieStatus::Unreleased(Some(date)) => span(
            "unreleased ".to_owned().concat(date.as_str()),
            Tone::Dim,
        ),
        MovieStatus::Unreleased(None) => span("unreleased".to_owned(), Tone::Dim),
    }
}

/// The columns of the full help.
pub const HELP_COLUMNS: [[Hint; 6]; 3] = [
    [
        ("↑/k", "up"),
        ("↓/j", "down"),
        ("pgup/b/u", "page up"),
        ("pgdn/f/d", "page down"),
        ("g/home", "go to start"),
        ("G/end", "go to end"),
    ],
    [
        ("enter", "open/search"),
        ("esc", "back/clear"),
        ("/", "filter movies"),
        ("s", "sort movies"),
        ("v", "full overview"),
        ("r", "refresh"),
    ],
    [
        ("x", "delete file / rejections"),
        ("z", "delete movie"),
        ("! ✓", "rejected / grabbed before"),
        ("↓", "downloading"),
        ("q", "quit"),
        ("?", "close help"),
    ],
];

/// The columns at the right of a row that its status takes.
pub const MOVIE_META_WIDTH: u16 = 24;

/// The columns of a row's title: what the status leaves, but at least four.
pub open spec fn title_columns(width: u16) -> nat {
    if inner_width(width, (MOVIE_META_WIDTH + 6) as u16) > 4 {
        inner_width(width, (MOVIE_META_WIDTH + 6) as u16)
    } else {
        4
    }
}

/// One row of the movie list: title and status, then the "year • rating •
/// runtime" line.
pub open spec fn movie_row(
    movie: Movie,
    status: MovieStatusModel,
    selected: bool,
    width: u16,
) -> EntryModel {
    let tone = if selected {
        Tone::AccentBold
    } else if status is Unreleased {
        Tone::Dim
    } else {
        Tone::Fg
    };
    EntryModel {
        title: seq![
            gutter_span(selected),
            (truncated(shown_title(movie.title), title_columns(width)), tone),
        ],
        right: seq![status_text(status), (" "@, Tone::Raw)],
        below: seq![
            seq![
                gutter_span(selected),
                (truncated(movie_meta_text(movie), inner_width(width, 6)), detail_tone(selected)),
            ],
        ],
    }
}

fn movie_entry(movie: &Movie, status: &MovieStatus, selected: bool, width: u16) -> (entry: Entry)
    ensures
        entry@ == movie_row(*movie, status@, selected, width),
{
    let tone: Tone = if selected {
        Tone::AccentBold
    } else if matches!(status, MovieStatus::Unreleased(_)) {
        Tone::Dim
    } else {
        Tone::Fg
    };
    let below_tone: Tone = if selected {
        Tone::AccentColor
    } else {
        Tone::Dim
    };
    let left: usize = width_within(width, MOVIE_META_WIDTH + 6);
    let title_width: usize = if left > 4 {
        left
    } else {
        4
    };
    let title: String = text_or(&movie.title, "(untitled)");
    let meta: String = movie_meta(movie);
    let mut below: Vec<Vec<Span>> = Vec::new();
    below.push(
        pair(
            gutter(selected),
            span(truncate(meta.as_str(), width_within(width, 6)), below_tone),
        ),
    );
    let entry = Entry {
        title: pair(gutter(selected), span(truncate(title.as_str(), title_width), tone)),
        right: pair(status_span(status), span(" ".to_owned(), Tone::Raw)),
        below,
    };
    assert(entry@.below =~= movie_row(*movie, status@, selected, width).below);
    entry
}

/// One row of the add results: title, meta line and one line of the overview.
pub open spec fn add_row(movie: Movie, selected: bool, width: u16) -> EntryModel {
    found_row(
        shown_title(movie.title),
        movie_meta_text(movie),
        opt_text(movie.overview),
        selected,
        inner_width(width, 6),
    )
}

/// The detail rows of a movie file.
pub open spec fn file_rows(file: MovieFile, runtime: Option<String>, path_width: nat) -> Seq<
    (&'static str, Seq<char>),
> {
    let base = base_rows(
        file.path,
        file.size,
        file.quality,
        file.languages@,
        file.language,
        path_width,
    );
    let media = match file.media_info {
        Some(info) => base + media_rows(info) + seq![
            (
                "Runtime",
                match info.run_time {
                    Some(time) => time@,
                    None => dashed(opt_text(runtime)),
                },
            ),
        ],
        None => base,
    };
    if file.edition is Some && file.edition->0@.len() > 0 {
        media.push(("Edition", file.edition->0@))
    } else {
        media
    }
}

/// The detail rows of a movie file: path, size, quality and language; the
/// media rows where the server knows them; the edition where there is one.
pub fn movie_file_rows(file: &MovieFile, runtime: &Option<String>, path_width: usize) -> (rows: Vec<
    (&'static str, String),
>)
    ensures
        labelled(rows@) == file_rows(*file, *runtime, path_width as nat),
{
    let mut rows: Vec<(&'static str, String)> = Vec::new();
    assert(labelled(rows@) =~= Seq::empty());
    push_base_rows(
        &mut rows,
        &file.path,
        file.size,
        &file.quality,
        &file.languages,
        &file.language,
        path_width,
    );
    assert(labelled(rows@) =~= base_rows(
        file.path,
        file.size,
        file.quality,
        file.languages@,
        file.language,
        path_width as nat,
    ));
    if let Some(info) = &file.media_info {
        push_media_rows(&mut rows, info);
        let ghost before = rows@;
        let time: String = match &info.run_time {
            Some(time) => time.clone(),
            None => or_dash(runtime.clone()),
        };
        rows.push(("Runtime", time));
        assert(labelled(rows@) =~= labelled(before) + seq![("Runtime", time@)]);
    }
    let ghost before = rows@;
    if let Some(edition) = &file.edition {
        if !edition.as_str().is_empty() {
            rows.push(("Edition", edition.clone()));
            assert(labelled(rows@) =~= labelled(before).push(("Edition", edition@)));
        }
    }
    rows
}

/// The rows of an overview in the header: two fifths of the height, at least
/// one.
pub open spec fn overview_cap(height: u16) -> nat {
    if height * 2 / 5 > 0 {
        (height * 2 / 5) as nat
    } else {
        1
    }
}

/// The lines of a movie's overview.
pub open spec fn overview_text(movie: Movie, columns: nat) -> Seq<Seq<char>> {
    set_lines(
        spaced_words(
            match movie.overview {
                Some(overview) => overview@,
                None => Seq::empty(),
            },
        ),
        columns,
    )
}

/// The header of a movie's page: title, "year • rating • runtime" and the
/// start of the overview.
pub open spec fn movie_header(movie: Movie, width: u16, height: u16) -> Seq<LineModel> {
    header(
        shown_title(movie.title),
        movie_meta_text(movie),
        overview_text(movie, inner_width(width, 6)),
        overview_cap(height),
        "  … (v: full overview)"@,
    )
}

/// What stands below the header: one status line, or the details of the file.
pub open spec fn file_block(
    movie: Movie,
    status: MovieStatusModel,
    width: u16,
    height: u16,
) -> Seq<LineModel> {
    match movie.movie_file {
        None => if height == 0 {
            Seq::empty()
        } else {
            seq![
                seq![
                    ("  "@, Tone::Raw),
                    status_text(status),
                    if status is Missing {
                        ("  (enter: search)"@, Tone::Dim)
                    } else {
                        (""@, Tone::Raw)
                    },
                ],
            ]
        },
        Some(file) => {
            let rows = file_rows(file, movie.runtime, inner_width(width, 16));
            labelled_lines(rows.take(smaller(rows.len() as int, height as int)))
        },
    }
}

/// A movie's page.
pub open spec fn movie_page(
    movie: Movie,
    queue: Seq<QueueItem>,
    now: Seq<char>,
    width: u16,
    height: u16,
) -> Seq<LineModel> {
    let top = movie_header(movie, width, height);
    top + file_block(
        movie,
        movie_status_of(movie, queued_movie(queue, movie.id), now),
        width,
        rows_below(top.len(), height),
    )
}

fn wrapped_overview(movie: &Movie, columns: usize) -> (lines: Vec<String>)
    ensures
        texts(lines@) == overview_text(*movie, columns as nat),
{
    let overview: String = text_or(&movie.overview, "");
    proof {
        reveal_strlit("");
        assert(""@ =~= Seq::<char>::empty());
    }
    wrap_text(overview.as_str(), columns)
}

fn header_of(movie: &Movie, width: u16, height: u16) -> (lines: Vec<Vec<Span>>)
    ensures
        shown_lines(lines@) == movie_header(*movie, width, height),
{
    let title: String = text_or(&movie.title, "(untitled)");
    let meta: String = movie_meta(movie);
    let overview: Vec<String> = wrapped_overview(movie, width_within(width, 6));
    let share: u32 = height as u32 * 2 / 5;
    let room: usize = if share > 0 {
        share as usize
    } else {
        1
    };
    header_lines(title.as_str(), meta.as_str(), &overview, room, "  … (v: full overview)")
}

/// Put the block below the header behind it.
fn push_file_block(
    lines: &mut Vec<Vec<Span>>,
    movie: &Movie,
    status: &MovieStatus,
    width: u16,
    height: u16,
)
    ensures
        shown_lines(final(lines)@) == shown_lines(old(lines)@) + file_block(
            *movie,
            status@,
            width,
            height,
        ),
{
    match &movie.movie_file {
        None => {
            if height > 0 {
                let mut line: Vec<Span> = pair(span("  ".to_owned(), Tone::Raw), status_span(status));
                let ghost start = shown(line@);
                let hint: Span = if matches!(status, MovieStatus::Missing) {
                    span("  (enter: search)".to_owned(), Tone::Dim)
                } else {
                    span("".to_owned(), Tone::Raw)
                };
                line.push(hint);
                assert(shown(line@) =~= start.push(hint@));
                assert(start.push(hint@) =~= seq![
                    ("  "@, Tone::Raw),
                    status_text(status@),
                    hint@,
                ]);
                push_line(lines, line);
                assert(file_block(*movie, status@, width, height) =~= seq![shown(line@)]);
            }
            assert(shown_lines(lines@) =~= shown_lines(old(lines)@) + file_block(
                *movie,
                status@,
                width,
                height,
            ));
        },
        Some(file) => {
            let rows: Vec<(&'static str, String)> = movie_file_rows(
                file,
                &movie.runtime,
                width_within(width, 16),
            );
            let count: usize = if rows.len() < height as usize {
                rows.len()
            } else {
                height as usize
            };
            push_labelled(lines, &rows, count);
        },
    }
}

// The screen.

impl Browse {
    /// The hints of a field, prompt or popup that takes every key.
    fn modal_help(&self) -> (entries: Option<Vec<Hint>>)
        ensures
            entries is Some == self@.modal_hints() is Some,
            entries is Some ==> entries->0@ == self@.modal_hints()->0,
    {
        if self.filter.focused {
            Some(vec![("esc", "cancel"), ("enter", "apply")])
        } else if self.add.search_focused {
            Some(vec![("esc", "unfocus"), ("enter", "search")])
        } else if self.add.flow.is_some() {
            Some(vec![("j/k", "move"), ("enter", "next"), ("esc", "cancel")])
        } else if self.popups.confirm.is_some() {
            Some(vec![("y/enter", "confirm"), ("n/esc", "cancel")])
        } else if self.popups.delete_prompt.is_some() {
            Some(
                vec![
                    ("j/k", "move"),
                    ("space", "toggle"),
                    ("enter", "delete"),
                    ("esc", "cancel"),
                ],
            )
        } else if self.downloads.is_prompting() {
            Some(
                vec![
                    ("j/k", "move"),
                    ("space", "toggle"),
                    ("enter", "remove"),
                    ("esc", "cancel"),
                ],
            )
        } else if self.popups.sort_menu.is_some() || self.popups.search_menu.is_some() {
            Some(vec![("esc", "close"), ("enter", "select")])
        } else if self.popups.rejections.is_some() {
            Some(vec![("esc", "close")])
        } else if self.overview.fullscreen {
            Some(vec![("esc/v", "back"), ("j/k", "scroll")])
        } else {
            None
        }
    }

    /// The hints shown at the foot of the screen: those of whatever takes the
    /// keys right now.
    pub fn help_entries(&self) -> (entries: Vec<Hint>)
        ensures
            entries@ == self@.hints(),
    {
        if let Some(entries) = self.modal_help() {
            return entries;
        }
        let mut entries: Vec<Hint> = Vec::new();
        match &self.level {
            Level::MovieList => {
                entries.push(("enter", "open"));
                entries.push(("a", "add"));
                entries.push(("d", "downloads"));
                entries.push(("/", "filter"));
                if self.filter.active {
                    entries.push(("esc", "clear"));
                }
                entries.push(("s", "sort"));
            },
            Level::Downloads => {
                entries.push(("esc", "back"));
                entries.push(("space", "mark"));
                entries.push(("x", "remove"));
            },
            Level::MovieDetail { movie } => {
                entries.push(("esc", "back"));
                entries.push(("enter", "search"));
                if movie.movie_file.is_some() {
                    entries.push(("x", "delete file"));
                }
                entries.push(("z", "delete"));
                entries.push(("v", "overview"));
            },
            Level::Search { .. } => {
                entries.push(("esc", "back"));
                entries.push(("enter", "download"));
                if self.rejection_count() > 0 {
                    entries.push(("x", "rejections"));
                }
            },
            Level::Add => {
                entries.push(("enter", "add"));
                entries.push(("/", "search"));
                entries.push(("esc", "back"));
            },
        }
        assert(entries@ =~= self@.level_hints());
        entries.push(("r", "refresh"));
        entries.push(
            (
                "?",
                if self.status.show_full_help {
                    "close help"
                } else {
                    "help"
                },
            ),
        );
        entries.push(("q", "quit"));
        entries
    }

    /// Where the user is, as a path.
    pub fn breadcrumb(&self) -> (text: String)
        ensures
            text@ == self@.breadcrumb(),
    {
        proof {
            reveal_strlit("");
            assert(""@ =~= Seq::<char>::empty());
        }
        match &self.level {
            Level::MovieList => "Movies".to_owned(),
            Level::MovieDetail { movie } => text_or(&movie.title, ""),
            Level::Search { movie } => text_or(&movie.title, "").concat(" / search"),
            Level::Add => if self.add.search.value().is_empty() {
                "Add movie".to_owned()
            } else {
                "Add movie / ".to_owned().concat(self.add.search.value())
            },
            Level::Downloads => {
                let mut text: String = "Downloads (".to_owned();
                let marked: usize = self.downloads.marked();
                if marked > 0 {
                    push_decimal(&mut text, marked as u64);
                    text.append(" marked)");
                } else {
                    push_decimal(&mut text, self.lists.queue.len() as u64);
                    text.append(")");
                }
                text
            },
        }
    }

    /// The row above the breadcrumb: an error before a notice.
    pub fn message_row(&self) -> (row: Option<Span>)
        ensures
            row is Some == self@.message() is Some,
            row is Some ==> row->0@ == self@.message()->0,
    {
        match &self.status.error {
            Some(error) => Some(span("Error: ".to_owned().concat(error.as_str()), Tone::Error)),
            None => match self.status.notice {
                Some(notice) => Some(span(notice.to_owned(), Tone::Accent)),
                None => None,
            },
        }
    }

    /// How the rows of the screen are shared out.
    pub fn screen_layout(&self) -> (layout: ScreenLayout)
        ensures
            layout == self@.layout(),
    {
        let filter: bool = self.filter.active && matches!(self.level, Level::MovieList);
        ScreenLayout {
            message_rows: if self.status.error.is_some() || self.status.notice.is_some() {
                1
            } else {
                0
            },
            input: if filter {
                InputRow::Filter
            } else if matches!(self.level, Level::Add) {
                InputRow::Search
            } else {
                InputRow::Absent
            },
            body: if self.overview.fullscreen {
                Body::Overview
            } else {
                match &self.level {
                    Level::MovieList => Body::MovieList,
                    Level::MovieDetail { .. } => Body::MovieDetail,
                    Level::Search { .. } => Body::Search,
                    Level::Add => Body::AddResults,
                    Level::Downloads => Body::Downloads,
                }
            },
            help_rows: if self.status.show_full_help {
                8
            } else {
                1
            },
        }
    }

    /// The question of the open confirmation.
    pub fn question(&self) -> (text: Option<&'static str>)
        ensures
            text == self@.confirm_question(),
    {
        match self.popups.confirm {
            None => None,
            Some(Confirm::DeleteFile { .. }) => Some("Delete this movie file?"),
            Some(Confirm::Grab { index }) => if index < self.lists.releases.len()
                && self.lists.releases[index].rejected {
                Some("Release has rejections. Download anyway?")
            } else {
                Some("Download this release?")
            },
        }
    }

    /// Title and option labels of the wizard's current step.
    pub fn add_step_menu(&self) -> (menu: (&'static str, Vec<String>))
        ensures
            menu.0 == self@.step_title(),
            texts(menu.1@) == self@.step_labels(),
    {
        let menu: (&'static str, Vec<String>) = match &self.add.flow {
            None => ("", Vec::new()),
            Some(flow) => match flow.step {
                AddStep::RootFolder => ("Root folder", path_labels(&self.add.root_folders)),
                AddStep::QualityProfile => (
                    "Quality profile",
                    profile_labels(&self.add.quality_profiles),
                ),
                AddStep::MinAvailability => (
                    "Minimum availability",
                    vec!["Announced".to_owned(), "In Cinemas".to_owned(), "Released".to_owned()],
                ),
                AddStep::Monitored => (
                    "Monitor this movie?",
                    vec!["Yes".to_owned(), "No".to_owned()],
                ),
                AddStep::Download => (
                    "Search & download now?",
                    vec!["Yes".to_owned(), "No".to_owned()],
                ),
            },
        };
        assert(texts(menu.1@) =~= self@.step_labels());
        menu
    }

    /// What an empty list says.
    pub fn empty_note(&self) -> (text: &'static str)
        ensures
            text == self@.empty_message(),
    {
        match &self.level {
            Level::Search { .. } => if self.status.loading {
                "  Searching indexers... this can take a while."
            } else {
                "  No releases found."
            },
            Level::Add => if self.status.loading {
                "  Searching..."
            } else if is_blank(self.add.search.value()) {
                "  Type a title or tmdb:<id>, then enter to search."
            } else {
                "  No results."
            },
            Level::Downloads => "  No active downloads.",
            _ => if self.status.loading {
                "  Loading..."
            } else {
                "  No movies."
            },
        }
    }

    /// The row pieces of a download: its movie's title from the library,
    /// falling back to the release title on the queue item.
    pub fn download_row(&self, item: &QueueItem) -> (row: DownloadRow)
        ensures
            row@ == self@.download_pieces(*item),
    {
        let known: Option<String> = match item.movie_id {
            Some(id) => match find_movie(&self.lists.all_movies, id) {
                Some(movie) => movie.title.clone(),
                None => None,
            },
            None => None,
        };
        let name: String = match known {
            Some(title) => title,
            None => text_or(&item.title, "(unknown)"),
        };
        DownloadRow { name, code: None, episode_title: None }
    }

    /// The lines of the open movie's page; none on another level.
    pub fn detail_lines(&self, now: &str, width: u16, height: u16) -> (lines: Vec<Vec<Span>>)
        ensures
            shown_lines(lines@) == (match self@.level {
                Level::MovieDetail { movie } => movie_page(
                    *movie,
                    self@.lists.queue,
                    now@,
                    width,
                    height,
                ),
                _ => Seq::empty(),
            }),
    {
        match &self.level {
            Level::MovieDetail { movie } => {
                let mut lines: Vec<Vec<Span>> = header_of(movie, width, height);
                let rest: u16 = height_below(lines.len(), height);
                let status: MovieStatus = movie_status(
                    movie,
                    movie_queue_entry(&self.lists.queue, movie.id),
                    now,
                );
                push_file_block(&mut lines, movie, &status, width, rest);
                lines
            },
            _ => {
                let lines: Vec<Vec<Span>> = Vec::new();
                assert(shown_lines(lines@) =~= Seq::empty());
                lines
            },
        }
    }

    /// The lines of the open movie's whole overview; none on another level.
    pub fn overview_lines(&self, width: u16) -> (lines: Vec<Vec<Span>>)
        ensures
            shown_lines(lines@) == (match self@.level {
                Level::MovieDetail { movie } => indented_lines(
                    overview_text(*movie, inner_width(width, 4)),
                ),
                _ => Seq::empty(),
            }),
    {
        let mut lines: Vec<Vec<Span>> = Vec::new();
        assert(shown_lines(lines@) =~= Seq::empty());
        if let Level::MovieDetail { movie } = &self.level {
            let texts_of: Vec<String> = wrapped_overview(movie, width_within(width, 4));
            push_indented(&mut lines, &texts_of, texts_of.len());
            assert(texts(texts_of@).take(texts_of@.len() as int) =~= texts(texts_of@));
            assert(shown_lines(lines@) =~= indented_lines(texts(texts_of@)));
        }
        lines
    }

    /// The movies on screen.
    pub fn movie_rows(&self, now: &str, width: u16, height: u16) -> (rows: Vec<Entry>)
        ensures
            entry_models(rows@) == self@.movie_rows(now@, width, height),
    {
        let per: usize = per_page(height, 3);
        let first: usize = window_start(self.lists.movie_cursor, self.lists.movies.len(), per);
        let end: usize = window_end(first, self.lists.movies.len(), per);
        let ghost want = self@.movie_rows(now@, width, height);
        let mut rows: Vec<Entry> = Vec::new();
        let mut i: usize = first;
        assert(entry_models(rows@) =~= want.take(0));
        while i < end
            invariant
                first <= i <= end <= self.lists.movies@.len(),
                want == self@.movie_rows(now@, width, height),
                want.len() == end - first,
                (first as int, end as int) == page_bounds(
                    self.lists.movie_cursor,
                    self.lists.movies@.len(),
                    height,
                    3,
                ),
                rows@.len() == i - first,
                entry_models(rows@) == want.take(i - first),
            decreases end - i,
        {
            let movie: &Movie = &self.lists.movies[i];
            let status: MovieStatus = movie_status(
                movie,
                movie_queue_entry(&self.lists.queue, movie.id),
                now,
            );
            let entry: Entry = movie_entry(movie, &status, i == self.lists.movie_cursor, width);
            proof {
                assert(first + (i - first) == i);
                assert(want[i - first] == entry@);
                lemma_entry_added(rows@, entry, want);
            }
            rows.push(entry);
            i += 1;
        }
        assert(want.take(end - first) =~= want);
        rows
    }

    /// The search results on screen.
    pub fn release_rows(&self, width: u16, height: u16) -> (rows: Vec<Entry>)
        ensures
            entry_models(rows@) == self@.release_rows(width, height),
    {
        let per: usize = per_page(height, 3);
        let first: usize = window_start(self.lists.release_cursor, self.lists.releases.len(), per);
        let end: usize = window_end(first, self.lists.releases.len(), per);
        let ghost want = self@.release_rows(width, height);
        let mut rows: Vec<Entry> = Vec::new();
        let mut i: usize = first;
        assert(entry_models(rows@) =~= want.take(0));
        while i < end
            invariant
                first <= i <= end <= self.lists.releases@.len(),
                want == self@.release_rows(width, height),
                want.len() == end - first,
                (first as int, end as int) == page_bounds(
                    self.lists.release_cursor,
                    self.lists.releases@.len(),
                    height,
                    3,
                ),
                rows@.len() == i - first,
                entry_models(rows@) == want.take(i - first),
            decreases end - i,
        {
            let selected: bool = i == self.lists.release_cursor;
            let tone: Tone = if selected {
                Tone::AccentColor
            } else {
                Tone::Dim
            };
            let entry: Entry = release_entry(
                &self.lists.releases[i],
                &self.lists.history,
                selected,
                tone,
                width_within(width, 6),
            );
            proof {
                assert(first + (i - first) == i);
                assert(want[i - first] == entry@);
                lemma_entry_added(rows@, entry, want);
            }
            rows.push(entry);
            i += 1;
        }
        assert(want.take(end - first) =~= want);
        rows
    }

    /// The lookup results on screen.
    pub fn add_rows(&self, width: u16, height: u16) -> (rows: Vec<Entry>)
        ensures
            entry_models(rows@) == self@.add_rows(width, height),
    {
        let per: usize = per_page(height, 4);
        let first: usize = window_start(self.add.cursor, self.add.results.len(), per);
        let end: usize = window_end(first, self.add.results.len(), per);
        let ghost want = self@.add_rows(width, height);
        let mut rows: Vec<Entry> = Vec::new();
        let mut i: usize = first;
        assert(entry_models(rows@) =~= want.take(0));
        while i < end
            invariant
                first <= i <= end <= self.add.results@.len(),
                want == self@.add_rows(width, height),
                want.len() == end - first,
                (first as int, end as int) == page_bounds(
                    self.add.cursor,
                    self.add.results@.len(),
                    height,
                    4,
                ),
                rows@.len() == i - first,
                entry_models(rows@) == want.take(i - first),
            decreases end - i,
        {
            let movie: &Movie = &self.add.results[i];
            let title: String = text_or(&movie.title, "(untitled)");
            let meta: String = movie_meta(movie);
            let entry: Entry = found_entry(
                title.as_str(),
                meta.as_str(),
                &movie.overview,
                i == self.add.cursor,
                width_within(width, 6),
            );
            proof {
                assert(first + (i - first) == i);
                assert(want[i - first] == entry@);
                lemma_entry_added(rows@, entry, want);
            }
            rows.push(entry);
            i += 1;
        }
        assert(want.take(end - first) =~= want);
        rows
    }

    /// The downloads on screen.
    pub fn download_rows(&self, width: u16, height: u16) -> (rows: Vec<Entry>)
        ensures
            entry_models(rows@) == self@.download_rows(width, height),
    {
        let per: usize = per_page(height, 3);
        let first: usize = window_start(self.downloads.cursor, self.lists.queue.len(), per);
        let end: usize = window_end(first, self.lists.queue.len(), per);
        let ghost want = self@.download_rows(width, height);
        let mut rows: Vec<Entry> = Vec::new();
        let mut i: usize = first;
        assert(entry_models(rows@) =~= want.take(0));
        while i < end
            invariant
                first <= i <= end <= self.lists.queue@.len(),
                want == self@.download_rows(width, height),
                want.len() == end - first,
                (first as int, end as int) == page_bounds(
                    self.downloads.cursor,
                    self.lists.queue@.len(),
                    height,
                    3,
                ),
                rows@.len() == i - first,
                entry_models(rows@) == want.take(i - first),
            decreases end - i,
        {
            let item: &QueueItem = &self.lists.queue[i];
            let row: DownloadRow = self.download_row(item);
            let entry: Entry = self.downloads.entry(item, &row, i == self.downloads.cursor, width);
            proof {
                assert(first + (i - first) == i);
                assert(want[i - first] == entry@);
                lemma_entry_added(rows@, entry, want);
            }
            rows.push(entry);
            i += 1;
        }
        assert(want.take(end - first) =~= want);
        rows
    }
}

} // verus!
