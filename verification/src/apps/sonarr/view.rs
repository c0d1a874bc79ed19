//! What the Sonarr browse screen shows: its rows as texts in tones, and the
//! hints of its keys.

use vstd::prelude::*;
use vstd::string::*;

use crate::apps::downloads::{download_entry, DownloadRow, RowModel};
use crate::apps::sonarr::browse::{find_series, Browse, Confirm, Level};
use crate::apps::sonarr::laws::law_filter_keeps_order;
use crate::apps::sonarr::state::{series_with_id, title_of, BrowseModel};
use crate::arr::display::{year_label, year_text, SYMBOL_LEGEND};
use crate::arr::models::QueueItem;
use crate::arr::rows::{
    base_rows, found_entry, found_row, media_rows, push_base_rows, push_media_rows, release_entry,
    release_row,
};
use crate::sonarr::{
    code_text, episode_code, episode_queue_entry, episode_status, is_of_season, monitored_label,
    monitored_text, queued_episode, season_downloading, season_label, season_label_text,
    season_name, season_text, series_meta, series_meta_text, status_of, EpStatus, EpStatusModel,
    Episode, EpisodeFile, Season, Series,
};
use crate::text::{
    blank, chars_of, decimal, decimal_int, is_blank, join, joined, lowercase, opt_text,
    push_decimal, push_int, push_opt, push_part, string_between, text_or, texts, with_opt,
    with_part,
};
use crate::ui::help::{hints, sections, Hint, Section, NAV};
use crate::ui::line::{shown, shown_lines, span, LineModel, Span, Tone};
use crate::ui::list::{per_page, window_end, window_start};
use crate::ui::rows::{
    clip, clipped, dashed, entry_models, gutter, gutter_span, header, header_lines, indent,
    indented, indented_lines, inner_width, labelled, labelled_lines, lemma_entry_added,
    lemma_line_added, or_dash, page_bounds, pair, push_blank, push_indented, push_labelled,
    push_line, shown_title, single, width_within, Entry, EntryModel, MIN_LIST_ROWS,
};
use crate::ui::text::{
    columns, display_width, leader, leader_line, set_lines, spaced_words, truncate, truncated,
    wrap_text,
};

verus! {

/// The columns at the right of an episode that its date and status take.
pub const EPISODE_META_WIDTH: u16 = 34;

/// What stands between the breadcrumb and the body.
#[derive(Debug, Clone, Copy, PartialEq, Eq, Structural)]
pub enum InputRow {
    Absent,
    Filter,
    Search,
}

/// What fills the middle of the screen.
#[derive(Debug, Clone, Copy, PartialEq, Eq, Structural)]
pub enum Body {
    Form,
    SeriesList,
    Show,
    Episodes,
    EpisodeInfo,
    Search,
    AddResults,
    Downloads,
}

/// How the screen is shared out: the message, the input field and the body.
#[derive(Debug, Clone, Copy, PartialEq, Eq, Structural)]
pub struct ScreenLayout {
    pub message_rows: u16,
    pub input: InputRow,
    pub body: Body,
}

impl BrowseModel {
    /// The hints of a field, form, prompt or popup that takes every key.
    pub open spec fn modal_hints(self) -> Option<Seq<Hint>> {
        if self.filter.focused {
            Some(seq![("esc", "cancel"), ("enter", "apply")])
        } else if self.add.search_focused {
            Some(seq![("esc", "unfocus"), ("enter", "search")])
        } else if self.add.form is Some {
            Some(
                seq![
                    ("↑/↓", "move"),
                    ("←/→", "change"),
                    ("enter", "select"),
                    ("esc", "cancel"),
                ],
            )
        } else if self.popups.confirm is Some {
            Some(seq![("y/enter", "confirm"), ("n/esc", "cancel")])
        } else if self.popups.delete_prompt is Some {
            Some(
                seq![
                    ("↑/↓", "move"),
                    ("space", "toggle"),
                    ("enter", "delete"),
                    ("esc", "cancel"),
                ],
            )
        } else if self.downloads.prompt is Some {
            Some(
                seq![
                    ("↑/↓", "move"),
                    ("space", "toggle"),
                    ("enter", "remove"),
                    ("esc", "cancel"),
                ],
            )
        } else if self.popups.sort_menu is Some || self.popups.search_menu is Some {
            Some(seq![("esc", "close"), ("enter", "select")])
        } else if self.popups.rejections is Some {
            Some(seq![("esc", "close")])
        } else {
            None
        }
    }

    /// The hints of the level itself.
    pub open spec fn level_hints(self) -> Seq<Hint> {
        match self.level {
            Level::SeriesList => {
                let head: Seq<Hint> = seq![
                    ("enter", "open"),
                    ("a", "add"),
                    ("d", "downloads"),
                    ("/", "filter"),
                ];
                let clear: Seq<Hint> = if self.filter.active {
                    head.push(("esc", "clear"))
                } else {
                    head
                };
                clear.push(("v", "sort")).push(("m", "monitor")).push(("o", "options"))
            },
            Level::Downloads => seq![("esc", "back"), ("space", "mark"), ("x", "remove")],
            Level::Show { .. } => seq![
                ("esc", "back"),
                ("enter", "open season"),
                ("z", "delete"),
                ("m", "monitor"),
                ("o", "options"),
            ],
            Level::Episodes { .. } => seq![
                ("esc", "back"),
                ("enter", "search"),
                ("i", "info"),
                ("m", "monitor"),
            ],
            Level::EpisodeDetail { episode, .. } => {
                let head: Seq<Hint> = seq![("↑/↓", "scroll")];
                let file: Seq<Hint> = if episode.episode_file is Some {
                    head.push(("x", "delete file"))
                } else {
                    head
                };
                file.push(("m", "monitor")).push(("esc/i", "back"))
            },
            Level::Search { .. } => {
                let head: Seq<Hint> = seq![("esc", "back"), ("enter", "download")];
                if self.rejection_count() > 0 {
                    head.push(("x", "rejections"))
                } else {
                    head
                }
            },
            Level::Add => seq![("enter", "add"), ("/", "search"), ("esc", "back")],
        }
    }

    /// The hints shown at the foot of the screen.
    pub open spec fn hints(self) -> Seq<Hint> {
        match self.modal_hints() {
            Some(hints) => hints,
            None => self.level_hints().push(("r", "refresh")).push(
                (
                    "?",
                    if self.status.show_full_help {
                        "close help"
                    } else {
                        "help"
                    },
                ),
            ).push(("q", "quit")),
        }
    }

    /// Where the user is, as a path.
    pub open spec fn breadcrumb(self) -> Seq<char> {
        match self.level {
            Level::SeriesList => "Series"@,
            Level::Downloads => if self.downloads.marks.len() > 0 {
                "Downloads ("@ + decimal(self.downloads.marks.len()) + " marked)"@
            } else {
                "Downloads ("@ + decimal(self.lists.queue.len()) + ")"@
            },
            Level::Show { series } => title_of(*series),
            Level::Episodes { series, season } => title_of(*series) + " / "@ + season_text(
                season.season_number,
            ),
            Level::EpisodeDetail { series, episode, .. } => title_of(*series) + " / "@ + code_text(
                episode.season_number,
                episode.episode_number,
            ),
            Level::Search { series, episode, .. } => title_of(*series) + " / "@ + code_text(
                episode.season_number,
                episode.episode_number,
            ) + " / search"@,
            Level::Add => if self.add.search.value.len() == 0 {
                "Add series"@
            } else {
                "Add series / "@ + self.add.search.value
            },
        }
    }

    /// The row above the breadcrumb: an error before a notice.
    pub open spec fn message(self) -> Option<(Seq<char>, Tone)> {
        if self.status.error is Some {
            Some(("Error: "@ + self.status.error->0, Tone::Error))
        } else if self.status.notice is Some {
            Some((self.status.notice->0@, Tone::Accent))
        } else {
            None
        }
    }

    /// How the screen is shared out. A form takes the place of the body and of
    /// the search field.
    pub open spec fn layout(self) -> ScreenLayout {
        ScreenLayout {
            message_rows: if self.status.error is Some || self.status.notice is Some {
                1
            } else {
                0
            },
            input: if self.filter.active && self.level is SeriesList {
                InputRow::Filter
            } else if self.level is Add && self.add.form is None {
                InputRow::Search
            } else {
                InputRow::Absent
            },
            body: if self.add.form is Some {
                Body::Form
            } else {
                match self.level {
                    Level::SeriesList => Body::SeriesList,
                    Level::Show { .. } => Body::Show,
                    Level::Episodes { .. } => Body::Episodes,
                    Level::EpisodeDetail { .. } => Body::EpisodeInfo,
                    Level::Search { .. } => Body::Search,
                    Level::Add => Body::AddResults,
                    Level::Downloads => Body::Downloads,
                }
            },
        }
    }

    /// The question of the open confirmation.
    pub open spec fn confirm_question(self) -> Option<&'static str> {
        match self.popups.confirm {
            None => None,
            Some(Confirm::DeleteFile { .. }) => Some("Delete this episode file?"),
            Some(Confirm::Grab { index }) => if index < self.lists.releases.len()
                && self.lists.releases[index as int].rejected {
                Some("Release has rejections. Download anyway?")
            } else {
                Some("Download this release?")
            },
        }
    }

    /// What an empty list says.
    pub open spec fn empty_message(self) -> &'static str {
        match self.level {
            Level::Search { .. } => if self.status.loading {
                "  Loading..."
            } else {
                "  No releases found."
            },
            Level::Add => if self.status.loading {
                "  Searching..."
            } else if blank(self.add.search.value) {
                "  Type a title or tvdb:<id>, then enter to search."
            } else {
                "  No results."
            },
            Level::Show { .. } => "  No seasons.",
            Level::Episodes { .. } => if self.status.loading {
                "  Loading..."
            } else {
                "  No episodes."
            },
            Level::Downloads => "  No active downloads.",
            _ => if self.status.loading {
                "  Loading..."
            } else {
                "  No series."
            },
        }
    }

    /// The name shown for a download: its series' title, else the release's.
    pub open spec fn download_name(self, item: QueueItem) -> Seq<char> {
        let known = match item.series_id {
            Some(id) => match series_with_id(self.lists.all_series, id) {
                Some(series) => opt_text(series.title),
                None => None,
            },
            None => None,
        };
        match known {
            Some(title) => title,
            None => match item.title {
                Some(title) => title@,
                None => "(unknown)"@,
            },
        }
    }

    /// The row pieces of a download: the series' name, and the code and title
    /// of its episode.
    pub open spec fn download_pieces(self, item: QueueItem) -> RowModel {
        RowModel {
            name: self.download_name(item),
            code: match item.episode {
                Some(episode) => Some(code_text(episode.season_number, episode.episode_number)),
                None => None,
            },
            episode_title: match item.episode {
                Some(episode) => if episode.title is Some && episode.title->0@.len() > 0 {
                    Some(episode.title->0@)
                } else {
                    None
                },
                None => None,
            },
        }
    }

    /// The series on screen.
    pub open spec fn series_rows(self, width: u16, height: u16) -> Seq<EntryModel> {
        let (first, end) = page_bounds(
            self.lists.series_cursor,
            self.lists.filtered.len(),
            height,
            3,
        );
        Seq::new(
            (end - first) as nat,
            |k: int|
                series_row(
                    *self.lists.all_series[self.lists.filtered[first + k] as int],
                    first + k == self.lists.series_cursor,
                    width,
                ),
        )
    }

    /// The seasons on screen.
    pub open spec fn season_rows(self, series: &Series, height: u16) -> Seq<LineModel> {
        let (first, end) = page_bounds(
            self.lists.season_cursor,
            series.seasons@.len(),
            height,
            1,
        );
        Seq::new(
            (end - first) as nat,
            |k: int|
                season_row(
                    series.seasons@[first + k],
                    first + k == self.lists.season_cursor,
                    season_busy(
                        self.lists.queue,
                        series.id,
                        series.seasons@[first + k].season_number,
                    ),
                ),
        )
    }

    /// The episodes on screen.
    pub open spec fn episode_rows(self, now: Seq<char>, width: u16, height: u16) -> Seq<LineModel> {
        let all = self.lists.episodes;
        let (first, end) = page_bounds(self.lists.episode_cursor, all.len(), height, 1);
        Seq::new(
            (end - first) as nat,
            |k: int|
                episode_row(
                    *all[first + k],
                    status_of(
                        *all[first + k],
                        queued_episode(self.lists.queue, all[first + k].id),
                        now,
                    ),
                    first + k == self.lists.episode_cursor,
                    width,
                ),
        )
    }

    /// The search results on screen.
    pub open spec fn release_rows(self, width: u16, height: u16) -> Seq<EntryModel> {
        let all = self.lists.releases;
        let (first, end) = page_bounds(self.lists.release_cursor, all.len(), height, 3);
        Seq::new(
            (end - first) as nat,
            |k: int|
                release_row(
                    all[first + k],
                    self.lists.history,
                    first + k == self.lists.release_cursor,
                    Tone::Dim,
                    inner_width(width, 6),
                ),
        )
    }

    /// The lookup results on screen.
    pub open spec fn add_rows(self, width: u16, height: u16) -> Seq<EntryModel> {
        let all = self.add.results;
        let (first, end) = page_bounds(self.add.cursor, all.len(), height, 4);
        Seq::new(
            (end - first) as nat,
            |k: int|
                found_row(
                    shown_title(all[first + k].title),
                    series_meta_text(*all[first + k]),
                    opt_text(all[first + k].overview),
                    first + k == self.add.cursor,
                    inner_width(width, 6),
                ),
        )
    }

    /// The downloads on screen.
    pub open spec fn download_rows(self, width: u16, height: u16) -> Seq<EntryModel> {
        let all = self.lists.queue;
        let (first, end) = page_bounds(self.downloads.cursor, all.len(), height, 3);
        Seq::new(
            (end - first) as nat,
            |k: int|
                download_entry(
                    all[first + k],
                    self.download_pieces(all[first + k]),
                    first + k == self.downloads.cursor,
                    self.downloads.marks.contains(all[first + k].id),
                    width,
                ),
        )
    }
}

// Single rows.

/// One row of the series list: title, then the overview, flagged where the
/// show is not watched for.
pub open spec fn series_row(series: Series, selected: bool, width: u16) -> EntryModel {
    let overview = match series.overview {
        Some(overview) => overview@,
        None => Seq::empty(),
    };
    EntryModel {
        title: seq![
            gutter_span(selected),
            (
                truncated(shown_title(series.title), inner_width(width, 6)),
                if selected {
                    Tone::AccentBold
                } else {
                    Tone::Fg
                },
            ),
        ],
        right: Seq::empty(),
        below: seq![
            seq![
                gutter_span(selected),
                (
                    truncated(
                        if series.monitored {
                            overview
                        } else {
                            monitored_text(false)@ + " • "@ + overview
                        },
                        inner_width(width, 6),
                    ),
                    Tone::Dim,
                ),
            ],
        ],
    }
}

fn series_entry(series: &Series, selected: bool, width: u16) -> (entry: Entry)
    ensures
        entry@ == series_row(*series, selected, width),
{
    let tone: Tone = if selected {
        Tone::AccentBold
    } else {
        Tone::Fg
    };
    proof {
        reveal_strlit("");
        assert(""@ =~= Seq::<char>::empty());
    }
    let title: String = text_or(&series.title, "(untitled)");
    let mut detail: String = text_or(&series.overview, "");
    if !series.monitored {
        detail = monitored_label(false).to_owned().concat(" • ").concat(detail.as_str());
    }
    let mut below: Vec<Vec<Span>> = Vec::new();
    below.push(
        pair(
            gutter(selected),
            span(truncate(detail.as_str(), width_within(width, 6)), Tone::Dim),
        ),
    );
    let entry = Entry {
        title: pair(
            gutter(selected),
            span(truncate(title.as_str(), width_within(width, 6)), tone),
        ),
        right: Vec::new(),
        below,
    };
    assert(entry@.right =~= Seq::empty());
    assert(entry@.below =~= series_row(*series, selected, width).below);
    entry
}

/// Whether anything of a season is being downloaded.
pub open spec fn season_busy(queue: Seq<QueueItem>, series_id: i64, season_number: i32) -> bool {
    exists|i: int|
        0 <= i < queue.len() && is_of_season(#[trigger] queue[i], series_id, season_number)
}

/// One row of the season list, dimmed where the season is not watched for.
pub open spec fn season_row(season: Season, selected: bool, downloading: bool) -> LineModel {
    let label = season_label_text(season);
    let line = if selected {
        seq![gutter_span(true), (label, Tone::AccentBold)]
    } else {
        seq![
            (
                "   "@ + label,
                if season.monitored {
                    Tone::Fg
                } else {
                    Tone::Dim
                },
            ),
        ]
    };
    if downloading {
        line.push((" ↓"@, Tone::AccentBright))
    } else {
        line
    }
}

fn season_line(season: &Season, selected: bool, downloading: bool) -> (line: Vec<Span>)
    ensures
        shown(line@) == season_row(*season, selected, downloading),
{
    let label: String = season_label(season);
    let mut line: Vec<Span> = if selected {
        pair(gutter(true), span(label, Tone::AccentBold))
    } else {
        single(
            "   ".to_owned().concat(label.as_str()),
            if season.monitored {
                Tone::Fg
            } else {
                Tone::Dim
            },
        )
    };
    let ghost start = shown(line@);
    if downloading {
        line.push(span(" ↓".to_owned(), Tone::AccentBright));
        assert(shown(line@) =~= start.push((" ↓"@, Tone::AccentBright)));
    }
    line
}

/// The day an episode airs: the local one, else that of the moment, else "TBA".
pub open spec fn air_day(episode: Episode) -> Seq<char> {
    match episode.air_date {
        Some(date) => date@,
        None => match episode.air_date_utc {
            Some(moment) => if moment@.len() > 10 {
                moment@.take(10)
            } else {
                moment@
            },
            None => "TBA"@,
        },
    }
}

fn air_label(episode: &Episode) -> (label: String)
    ensures
        label@ == air_day(*episode),
{
    match &episode.air_date {
        Some(date) => date.clone(),
        None => match &episode.air_date_utc {
            Some(moment) => {
                let chars: Vec<char> = chars_of(moment.as_str());
                if chars.len() > 10 {
                    let label: String = string_between(&chars, 0, 10);
                    assert(label@ =~= moment@.take(10));
                    label
                } else {
                    moment.clone()
                }
            },
            None => "TBA".to_owned(),
        },
    }
}

/// An availability as it is shown.
pub open spec fn status_text(status: EpStatusModel) -> (Seq<char>, Tone) {
    match status {
        EpStatusModel::Downloaded(quality) => (quality, Tone::Fg),
        EpStatusModel::Downloading(percent) => (
            "↓ "@ + decimal(percent as nat) + "%"@,
            Tone::AccentBright,
        ),
        EpStatusModel::Missing => ("missing"@, Tone::Error),
        EpStatusModel::Unaired => ("unaired"@, Tone::Dim),
    }
}

fn status_span(status: &EpStatus) -> (s: Span)
    ensures
        s@ == status_text(status@),
{
    match status {
        EpStatus::Downloaded(quality) => span(quality.clone(), Tone::Fg),
        EpStatus::Downloading(percent) => {
            let mut text: String = "↓ ".to_owned();
            push_decimal(&mut text, *percent as u64);
            text.append("%");
            span(text, Tone::AccentBright)
        },
        EpStatus::Missing => span("missing".to_owned(), Tone::Error),
        EpStatus::Unaired => span("unaired".to_owned(), Tone::Dim),
    }
}

/// The marker of an episode that is not watched for.
pub open spec fn monitored_tag(episode: Episode) -> Seq<char> {
    if episode.monitored {
        Seq::empty()
    } else {
        " • "@ + monitored_text(false)@
    }
}

/// The title of an episode, cut to leave room for its marker and for the
/// columns at the right.
pub open spec fn episode_title(episode: Episode, width: u16) -> Seq<char> {
    let left = inner_width(width, (EPISODE_META_WIDTH + 12) as u16) - monitored_tag(episode).len();
    truncated(
        match episode.title {
            Some(title) => title@,
            None => Seq::empty(),
        },
        if left > 4 {
            left as nat
        } else {
            4
        },
    )
}

/// The columns between an episode's title and its date, which a faint rule
/// fills.
pub open spec fn episode_gap(episode: Episode, status: Seq<char>, selected: bool, width: u16) -> nat {
    let code = code_text(episode.season_number, episode.episode_number) + "  "@;
    let left = columns(gutter_span(selected).0) + columns(code) + columns(
        episode_title(episode, width),
    ) + columns(monitored_tag(episode));
    let right = columns(air_day(episode) + "  "@) + columns(status) + 1;
    if left + right < inner_width(width, 1) {
        (inner_width(width, 1) - (left + right)) as nat
    } else {
        0
    }
}

/// One row of the episode list: code and title at the left, date and status at
/// the right, and a rule between them.
pub open spec fn episode_row(
    episode: Episode,
    status: EpStatusModel,
    selected: bool,
    width: u16,
) -> LineModel {
    let base = if selected {
        Tone::AccentBold
    } else if status is Unaired || !episode.monitored {
        Tone::Dim
    } else {
        Tone::Fg
    };
    seq![
        gutter_span(selected),
        (code_text(episode.season_number, episode.episode_number) + "  "@, base),
        (episode_title(episode, width), base),
        (monitored_tag(episode), Tone::Dim),
        (leader(episode_gap(episode, status_text(status).0, selected, width)), Tone::Dim),
        (air_day(episode) + "  "@, Tone::Dim),
        status_text(status),
        (" "@, Tone::Raw),
    ]
}

fn tag_of(episode: &Episode) -> (tag: String)
    ensures
        tag@ == monitored_tag(*episode),
{
    if episode.monitored {
        String::new()
    } else {
        " • ".to_owned().concat(monitored_label(false))
    }
}

fn title_of_episode(episode: &Episode, width: u16) -> (title: String)
    ensures
        title@ == episode_title(*episode, width),
{
    proof {
        reveal_strlit("");
        assert(""@ =~= Seq::<char>::empty());
    }
    let tag: String = tag_of(episode);
    let left: usize = width_within(width, EPISODE_META_WIDTH + 12).saturating_sub(
        chars_of(tag.as_str()).len(),
    );
    let room: usize = if left > 4 {
        left
    } else {
        4
    };
    let title: String = text_or(&episode.title, "");
    truncate(title.as_str(), room)
}

fn gap_of(episode: &Episode, status: &str, selected: bool, width: u16) -> (gap: usize)
    ensures
        gap == episode_gap(*episode, status@, selected, width),
{
    let bar: Span = gutter(selected);
    let code: String = episode_code(episode.season_number, episode.episode_number).concat("  ");
    let title: String = title_of_episode(episode, width);
    let tag: String = tag_of(episode);
    let date: String = air_label(episode).concat("  ");
    let left: usize = display_width(bar.text.as_str()).saturating_add(
        display_width(code.as_str()),
    ).saturating_add(display_width(title.as_str())).saturating_add(display_width(tag.as_str()));
    let right: usize = display_width(date.as_str()).saturating_add(
        display_width(status),
    ).saturating_add(1);
    width_within(width, 1).saturating_sub(left.saturating_add(right))
}

fn episode_line(episode: &Episode, status: &EpStatus, selected: bool, width: u16) -> (line: Vec<
    Span,
>)
    ensures
        shown(line@) == episode_row(*episode, status@, selected, width),
{
    let base: Tone = if selected {
        Tone::AccentBold
    } else if matches!(status, EpStatus::Unaired) || !episode.monitored {
        Tone::Dim
    } else {
        Tone::Fg
    };
    let state: Span = status_span(status);
    let gap: usize = gap_of(episode, state.text.as_str(), selected, width);
    let code: String = episode_code(episode.season_number, episode.episode_number).concat("  ");
    let mut line: Vec<Span> = Vec::new();
    line.push(gutter(selected));
    line.push(span(code, base));
    line.push(span(title_of_episode(episode, width), base));
    line.push(span(tag_of(episode), Tone::Dim));
    line.push(span(leader_line(gap), Tone::Dim));
    line.push(span(air_label(episode).concat("  "), Tone::Dim));
    line.push(state);
    line.push(span(" ".to_owned(), Tone::Raw));
    assert(shown(line@) =~= episode_row(*episode, status@, selected, width));
    line
}

/// The detail rows of an episode file.
pub open spec fn file_rows(file: EpisodeFile, path_width: nat) -> Seq<(&'static str, Seq<char>)> {
    let base = base_rows(
        file.path,
        file.size,
        file.quality,
        file.languages@,
        file.language,
        path_width,
    );
    match file.media_info {
        Some(info) => base + media_rows(info) + seq![
            ("Runtime", dashed(opt_text(info.run_time))),
        ],
        None => base,
    }
}

/// The detail rows of an episode file: path, size, quality and language, and
/// the media rows where the server knows them.
pub fn episode_file_rows(file: &EpisodeFile, path_width: usize) -> (rows: Vec<
    (&'static str, String),
>)
    ensures
        labelled(rows@) == file_rows(*file, path_width as nat),
{
    let mut rows: Vec<(&'static str, String)> = Vec::new();
    assert(labelled(rows@) =~= Seq::empty());
    push_base_rows(
        &mut rows,
        &file.path,
        file.size,
        &file.quality,
        &file.languages,
        &file.language,
        path_width,
    );
    assert(labelled(rows@) =~= base_rows(
        file.path,
        file.size,
        file.quality,
        file.languages@,
        file.language,
        path_width as nat,
    ));
    if let Some(info) = &file.media_info {
        push_media_rows(&mut rows, info);
        let ghost before = rows@;
        let time: String = or_dash(info.run_time.clone());
        rows.push(("Runtime", time));
        assert(labelled(rows@) =~= labelled(before) + seq![("Runtime", time@)]);
    }
    rows
}

// The header.

/// "2024 • 8.1 • monitored": what is known of a series, and always whether it
/// is watched for.
pub open spec fn header_meta(series: Series) -> Seq<char> {
    let dated = with_opt(Seq::empty(), year_text(series.year));
    let rated = with_opt(dated, opt_text(series.rating));
    joined(with_part(rated, monitored_text(series.monitored)@), " • "@)
}

/// The rows of the overview: what the list below and the other rows of the
/// header leave of the height, at least one.
pub open spec fn overview_room(meta: Seq<char>, height: u16) -> nat {
    let fixed = 3 + if meta.len() == 0 {
        0int
    } else {
        1
    };
    if height - MIN_LIST_ROWS - fixed > 1 {
        (height - MIN_LIST_ROWS - fixed) as nat
    } else {
        1
    }
}

/// The header of a series, which stays on screen on all its pages.
pub open spec fn series_header(series: Series, width: u16, height: u16) -> Seq<LineModel> {
    let overview = match series.overview {
        Some(overview) => overview@,
        None => Seq::empty(),
    };
    header(
        shown_title(series.title),
        header_meta(series),
        set_lines(spaced_words(clipped(overview)), inner_width(width, 6)),
        overview_room(header_meta(series), height),
        "  …"@,
    )
}

fn header_meta_of(series: &Series) -> (text: String)
    ensures
        text@ == header_meta(*series),
{
    let mut parts: Vec<String> = Vec::new();
    assert(texts(parts@) =~= Seq::empty());
    push_opt(&mut parts, year_label(series.year));
    push_opt(&mut parts, series.rating.clone());
    push_part(&mut parts, monitored_label(series.monitored).to_owned());
    join(&parts, " • ")
}

/// The header of a series.
pub fn series_header_lines(series: &Series, width: u16, height: u16) -> (lines: Vec<Vec<Span>>)
    ensures
        shown_lines(lines@) == series_header(*series, width, height),
{
    proof {
        reveal_strlit("");
        assert(""@ =~= Seq::<char>::empty());
    }
    let title: String = text_or(&series.title, "(untitled)");
    let meta: String = header_meta_of(series);
    let overview: String = clip(text_or(&series.overview, "").as_str());
    let wrapped: Vec<String> = wrap_text(overview.as_str(), width_within(width, 6));
    let fixed: u16 = if meta.as_str().is_empty() {
        3
    } else {
        4
    };
    let left: u16 = height.saturating_sub(MIN_LIST_ROWS).saturating_sub(fixed);
    let room: usize = if left > 1 {
        left as usize
    } else {
        1
    };
    header_lines(title.as_str(), meta.as_str(), &wrapped, room, "  …")
}

// The episode info.

/// "Aired 2024-01-02 · 42m · monitored".
pub open spec fn info_meta(episode: Episode) -> Seq<char> {
    let aired = match episode.air_date {
        Some(date) => Seq::<Seq<char>>::empty().push("Aired "@ + date@),
        None => Seq::empty(),
    };
    let timed = match episode.runtime {
        Some(minutes) => aired.push(decimal_int(minutes as int) + "m"@),
        None => aired,
    };
    joined(timed.push(monitored_text(episode.monitored)@), " · "@)
}

/// The lines of an episode's info: code and title, meta line, the file or that
/// there is none, and the description.
pub open spec fn info_text(episode: Episode, width: u16) -> Seq<LineModel> {
    let title = match episode.title {
        Some(title) => title@,
        None => Seq::empty(),
    };
    let head: Seq<LineModel> = seq![
        seq![
            (
                indented(
                    code_text(episode.season_number, episode.episode_number) + "  "@ + title,
                ),
                Tone::AccentBold,
            ),
        ],
        seq![(indented(info_meta(episode)), Tone::Dim)],
        Seq::empty(),
    ];
    let filed = match episode.episode_file {
        Some(file) => head + labelled_lines(file_rows(file, inner_width(width, 16))),
        None => head.push(seq![("  Not downloaded."@, Tone::Dim)]),
    };
    let overview = match episode.overview {
        Some(overview) => overview@,
        None => "No overview available."@,
    };
    filed.push(Seq::empty()) + indented_lines(
        set_lines(spaced_words(overview), inner_width(width, 4)),
    )
}

fn info_meta_of(episode: &Episode) -> (text: String)
    ensures
        text@ == info_meta(*episode),
{
    let mut parts: Vec<String> = Vec::new();
    assert(texts(parts@) =~= Seq::<Seq<char>>::empty());
    if let Some(date) = &episode.air_date {
        let ghost before = texts(parts@);
        let part: String = "Aired ".to_owned().concat(date.as_str());
        parts.push(part);
        assert(texts(parts@) =~= before.push(part@));
    }
    if let Some(minutes) = episode.runtime {
        let ghost before = texts(parts@);
        let mut part: String = String::new();
        push_int(&mut part, minutes as i64);
        part.append("m");
        assert(part@ =~= decimal_int(minutes as int) + "m"@);
        parts.push(part);
        assert(texts(parts@) =~= before.push(part@));
    }
    let ghost before = texts(parts@);
    parts.push(monitored_label(episode.monitored).to_owned());
    assert(texts(parts@) =~= before.push(monitored_text(episode.monitored)@));
    join(&parts, " · ")
}

/// The lines of an episode's info.
pub fn episode_info_lines(episode: &Episode, width: u16) -> (lines: Vec<Vec<Span>>)
    ensures
        shown_lines(lines@) == info_text(*episode, width),
{
    proof {
        reveal_strlit("");
        assert(""@ =~= Seq::<char>::empty());
    }
    let mut lines: Vec<Vec<Span>> = Vec::new();
    let title: String = text_or(&episode.title, "");
    let named: String = episode_code(episode.season_number, episode.episode_number).concat(
        "  ",
    ).concat(title.as_str());
    push_line(&mut lines, single(indent(named.as_str()), Tone::AccentBold));
    push_line(&mut lines, single(indent(info_meta_of(episode).as_str()), Tone::Dim));
    push_blank(&mut lines);
    assert(shown_lines(lines@) =~= seq![
        seq![(indented(named@), Tone::AccentBold)],
        seq![(indented(info_meta(*episode)), Tone::Dim)],
        Seq::empty(),
    ]);
    match &episode.episode_file {
        Some(file) => {
            let rows: Vec<(&'static str, String)> = episode_file_rows(
                file,
                width_within(width, 16),
            );
            push_labelled(&mut lines, &rows, rows.len());
            assert(labelled(rows@).take(rows@.len() as int) =~= labelled(rows@));
        },
        None => {
            push_line(&mut lines, single("  Not downloaded.".to_owned(), Tone::Dim));
        },
    }
    push_blank(&mut lines);
    let overview: String = text_or(&episode.overview, "No overview available.");
    let wrapped: Vec<String> = wrap_text(overview.as_str(), width_within(width, 4));
    push_indented(&mut lines, &wrapped, wrapped.len());
    assert(texts(wrapped@).take(wrapped@.len() as int) =~= texts(wrapped@));
    lines
}

// The screen.

impl Browse {
    /// The hints of a field, form, prompt or popup that takes every key.
    fn modal_help(&self) -> (entries: Option<Vec<Hint>>)
        ensures
            entries is Some == self@.modal_hints() is Some,
            entries is Some ==> entries->0@ == self@.modal_hints()->0,
    {
        if self.filter.focused {
            Some(vec![("esc", "cancel"), ("enter", "apply")])
        } else if self.add.search_focused {
            Some(vec![("esc", "unfocus"), ("enter", "search")])
        } else if self.add.form.is_some() {
            Some(
                vec![
                    ("↑/↓", "move"),
                    ("←/→", "change"),
                    ("enter", "select"),
                    ("esc", "cancel"),
                ],
            )
        } else if self.popups.confirm.is_some() {
            Some(vec![("y/enter", "confirm"), ("n/esc", "cancel")])
        } else if self.popups.delete_prompt.is_some() {
            Some(
                vec![
                    ("↑/↓", "move"),
                    ("space", "toggle"),
                    ("enter", "delete"),
                    ("esc", "cancel"),
                ],
            )
        } else if self.downloads.is_prompting() {
            Some(
                vec![
                    ("↑/↓", "move"),
                    ("space", "toggle"),
                    ("enter", "remove"),
                    ("esc", "cancel"),
                ],
            )
        } else if self.popups.sort_menu.is_some() || self.popups.search_menu.is_some() {
            Some(vec![("esc", "close"), ("enter", "select")])
        } else if self.popups.rejections.is_some() {
            Some(vec![("esc", "close")])
        } else {
            None
        }
    }

    /// The hints of the level itself.
    fn level_help(&self) -> (entries: Vec<Hint>)
        ensures
            entries@ == self@.level_hints(),
    {
        let mut entries: Vec<Hint> = Vec::new();
        match &self.level {
            Level::SeriesList => {
                entries.push(("enter", "open"));
                entries.push(("a", "add"));
                entries.push(("d", "downloads"));
                entries.push(("/", "filter"));
                if self.filter.active {
                    entries.push(("esc", "clear"));
                }
                entries.push(("v", "sort"));
                entries.push(("m", "monitor"));
                entries.push(("o", "options"));
            },
            Level::Downloads => {
                entries.push(("esc", "back"));
                entries.push(("space", "mark"));
                entries.push(("x", "remove"));
            },
            Level::Show { .. } => {
                entries.push(("esc", "back"));
                entries.push(("enter", "open season"));
                entries.push(("z", "delete"));
                entries.push(("m", "monitor"));
                entries.push(("o", "options"));
            },
            Level::Episodes { .. } => {
                entries.push(("esc", "back"));
                entries.push(("enter", "search"));
                entries.push(("i", "info"));
                entries.push(("m", "monitor"));
            },
            Level::EpisodeDetail { episode, .. } => {
                entries.push(("↑/↓", "scroll"));
                if episode.episode_file.is_some() {
                    entries.push(("x", "delete file"));
                }
                entries.push(("m", "monitor"));
                entries.push(("esc/i", "back"));
            },
            Level::Search { .. } => {
                entries.push(("esc", "back"));
                entries.push(("enter", "download"));
                if self.rejection_count() > 0 {
                    entries.push(("x", "rejections"));
                }
            },
            Level::Add => {
                entries.push(("enter", "add"));
                entries.push(("/", "search"));
                entries.push(("esc", "back"));
            },
        }
        assert(entries@ =~= self@.level_hints());
        entries
    }

    /// The hints shown at the foot of the screen: those of whatever takes the
    /// keys right now.
    pub fn help_entries(&self) -> (entries: Vec<Hint>)
        ensures
            entries@ == self@.hints(),
    {
        if let Some(entries) = self.modal_help() {
            return entries;
        }
        let mut entries: Vec<Hint> = self.level_help();
        entries.push(("r", "refresh"));
        entries.push(
            (
                "?",
                if self.status.show_full_help {
                    "close help"
                } else {
                    "help"
                },
            ),
        );
        entries.push(("q", "quit"));
        entries
    }

    /// Columns for the expanded (`?`) help: shared navigation, the level-aware
    /// hints, and the symbol legend as its own labelled column so the glyphs
    /// are never mistaken for keybindings.
    pub fn help_sections(&self) -> (list: Vec<Section>)
        ensures
            sections(list@) == seq![
                ("Move", NAV@),
                ("Actions", self@.hints()),
                ("Symbols", SYMBOL_LEGEND@),
            ],
    {
        let list: Vec<Section> = vec![
            Section { title: "Move", entries: hints(NAV.as_slice()) },
            Section { title: "Actions", entries: self.help_entries() },
            Section { title: "Symbols", entries: hints(SYMBOL_LEGEND.as_slice()) },
        ];
        assert(sections(list@) =~= seq![
            ("Move", NAV@),
            ("Actions", self@.hints()),
            ("Symbols", SYMBOL_LEGEND@),
        ]);
        list
    }

    /// Where the user is, as a path.
    pub fn breadcrumb(&self) -> (text: String)
        ensures
            text@ == self@.breadcrumb(),
    {
        proof {
            reveal_strlit("");
            assert(""@ =~= Seq::<char>::empty());
        }
        match &self.level {
            Level::SeriesList => "Series".to_owned(),
            Level::Downloads => {
                let mut text: String = "Downloads (".to_owned();
                let marked: usize = self.downloads.marked();
                if marked > 0 {
                    push_decimal(&mut text, marked as u64);
                    text.append(" marked)");
                } else {
                    push_decimal(&mut text, self.lists.queue.len() as u64);
                    text.append(")");
                }
                text
            },
            Level::Show { series } => text_or(&series.title, ""),
            Level::Episodes { series, season } => text_or(&series.title, "").concat(
                " / ",
            ).concat(season_name(season.season_number).as_str()),
            Level::EpisodeDetail { series, episode, .. } => text_or(&series.title, "").concat(
                " / ",
            ).concat(episode_code(episode.season_number, episode.episode_number).as_str()),
            Level::Search { series, episode, .. } => text_or(&series.title, "").concat(
                " / ",
            ).concat(episode_code(episode.season_number, episode.episode_number).as_str()).concat(
                " / search",
            ),
            Level::Add => if self.add.search.value().is_empty() {
                "Add series".to_owned()
            } else {
                "Add series / ".to_owned().concat(self.add.search.value())
            },
        }
    }

    /// The row above the breadcrumb: an error before a notice.
    pub fn message_row(&self) -> (row: Option<Span>)
        ensures
            row is Some == self@.message() is Some,
            row is Some ==> row->0@ == self@.message()->0,
    {
        match &self.status.error {
            Some(error) => Some(span("Error: ".to_owned().concat(error.as_str()), Tone::Error)),
            None => match self.status.notice {
                Some(notice) => Some(span(notice.to_owned(), Tone::Accent)),
                None => None,
            },
        }
    }

    /// How the screen is shared out.
    pub fn screen_layout(&self) -> (layout: ScreenLayout)
        ensures
            layout == self@.layout(),
    {
        ScreenLayout {
            message_rows: if self.status.error.is_some() || self.status.notice.is_some() {
                1
            } else {
                0
            },
            input: if self.filter.active && matches!(self.level, Level::SeriesList) {
                InputRow::Filter
            } else if matches!(self.level, Level::Add) && self.add.form.is_none() {
                InputRow::Search
            } else {
                InputRow::Absent
            },
            body: if self.add.form.is_some() {
                Body::Form
            } else {
                match &self.level {
                    Level::SeriesList => Body::SeriesList,
                    Level::Show { .. } => Body::Show,
                    Level::Episodes { .. } => Body::Episodes,
                    Level::EpisodeDetail { .. } => Body::EpisodeInfo,
                    Level::Search { .. } => Body::Search,
                    Level::Add => Body::AddResults,
                    Level::Downloads => Body::Downloads,
                }
            },
        }
    }

    /// The question of the open confirmation.
    pub fn question(&self) -> (text: Option<&'static str>)
        ensures
            text == self@.confirm_question(),
    {
        match self.popups.confirm {
            None => None,
            Some(Confirm::DeleteFile { .. }) => Some("Delete this episode file?"),
            Some(Confirm::Grab { index }) => if index < self.lists.releases.len()
                && self.lists.releases[index].rejected {
                Some("Release has rejections. Download anyway?")
            } else {
                Some("Download this release?")
            },
        }
    }

    /// What an empty list says.
    pub fn empty_note(&self) -> (text: &'static str)
        ensures
            text == self@.empty_message(),
    {
        match &self.level {
            Level::Search { .. } => if self.status.loading {
                "  Loading..."
            } else {
                "  No releases found."
            },
            Level::Add => if self.status.loading {
                "  Searching..."
            } else if is_blank(self.add.search.value()) {
                "  Type a title or tvdb:<id>, then enter to search."
            } else {
                "  No results."
            },
            Level::Show { .. } => "  No seasons.",
            Level::Episodes { .. } => if self.status.loading {
                "  Loading..."
            } else {
                "  No episodes."
            },
            Level::Downloads => "  No active downloads.",
            _ => if self.status.loading {
                "  Loading..."
            } else {
                "  No series."
            },
        }
    }

    /// The row pieces of a download: the series name from the library, falling
    /// back to the release title, and the code and title of its episode.
    pub fn download_row(&self, item: &QueueItem) -> (row: DownloadRow)
        ensures
            row@ == self@.download_pieces(*item),
    {
        let known: Option<String> = match item.series_id {
            Some(id) => match find_series(&self.lists.all_series, id) {
                Some(series) => series.title.clone(),
                None => None,
            },
            None => None,
        };
        let name: String = match known {
            Some(title) => title,
            None => text_or(&item.title, "(unknown)"),
        };
        match &item.episode {
            Some(episode) => {
                let episode_title: Option<String> = match &episode.title {
                    Some(title) => if title.as_str().is_empty() {
                        None
                    } else {
                        Some(title.clone())
                    },
                    None => None,
                };
                DownloadRow {
                    name,
                    code: Some(episode_code(episode.season_number, episode.episode_number)),
                    episode_title,
                }
            },
            None => DownloadRow { name, code: None, episode_title: None },
        }
    }

    /// The series on screen.
    pub fn series_rows(&self, width: u16, height: u16) -> (rows: Vec<Entry>)
        requires
            self@.wf(),
        ensures
            entry_models(rows@) == self@.series_rows(width, height),
    {
        let per: usize = per_page(height, 3);
        let first: usize = window_start(self.lists.series_cursor, self.lists.filtered.len(), per);
        let end: usize = window_end(first, self.lists.filtered.len(), per);
        let ghost want = self@.series_rows(width, height);
        let mut rows: Vec<Entry> = Vec::new();
        let mut i: usize = first;
        assert(entry_models(rows@) =~= want.take(0));
        proof {
            lemma_visible_in_range(self@);
        }
        while i < end
            invariant
                first <= i <= end <= self.lists.filtered@.len(),
                forall|k: int|
                    0 <= k < self.lists.filtered@.len() ==> #[trigger] self.lists.filtered@[k]
                        < self.lists.all_series@.len(),
                want == self@.series_rows(width, height),
                want.len() == end - first,
                (first as int, end as int) == page_bounds(
                    self.lists.series_cursor,
                    self.lists.filtered@.len(),
                    height,
                    3,
                ),
                rows@.len() == i - first,
                entry_models(rows@) == want.take(i - first),
            decreases end - i,
        {
            let at: usize = self.lists.filtered[i];
            let entry: Entry = series_entry(
                &self.lists.all_series[at],
                i == self.lists.series_cursor,
                width,
            );
            proof {
                assert(first + (i - first) == i);
                assert(want[i - first] == entry@);
                lemma_entry_added(rows@, entry, want);
            }
            rows.push(entry);
            i += 1;
        }
        assert(want.take(end - first) =~= want);
        rows
    }

    /// The seasons of the open show that are on screen; none on another level.
    pub fn season_rows(&self, height: u16) -> (rows: Vec<Vec<Span>>)
        ensures
            shown_lines(rows@) == (match self@.level {
                Level::Show { series } => self@.season_rows(&*series, height),
                _ => Seq::empty(),
            }),
    {
        let mut rows: Vec<Vec<Span>> = Vec::new();
        if let Level::Show { series } = &self.level {
            let per: usize = per_page(height, 1);
            let first: usize = window_start(self.lists.season_cursor, series.seasons.len(), per);
            let end: usize = window_end(first, series.seasons.len(), per);
            let ghost want = self@.season_rows(&**series, height);
            let mut i: usize = first;
            assert(shown_lines(rows@) =~= want.take(0));
            while i < end
                invariant
                    first <= i <= end <= series.seasons@.len(),
                    want == self@.season_rows(&**series, height),
                    want.len() == end - first,
                    (first as int, end as int) == page_bounds(
                        self.lists.season_cursor,
                        series.seasons@.len(),
                        height,
                        1,
                    ),
                    rows@.len() == i - first,
                    shown_lines(rows@) == want.take(i - first),
                decreases end - i,
            {
                let season: &Season = &series.seasons[i];
                let downloading: bool = season_downloading(
                    &self.lists.queue,
                    series.id,
                    season.season_number,
                );
                let line: Vec<Span> = season_line(
                    season,
                    i == self.lists.season_cursor,
                    downloading,
                );
                proof {
                    assert(first + (i - first) == i);
                    assert(want[i - first] == shown(line@));
                    lemma_line_added(rows@, line, want);
                }
                rows.push(line);
                i += 1;
            }
            assert(want.take(end - first) =~= want);
        } else {
            assert(shown_lines(rows@) =~= Seq::empty());
        }
        rows
    }

    /// The episodes on screen.
    pub fn episode_rows(&self, now: &str, width: u16, height: u16) -> (rows: Vec<Vec<Span>>)
        ensures
            shown_lines(rows@) == self@.episode_rows(now@, width, height),
    {
        let per: usize = per_page(height, 1);
        let first: usize = window_start(self.lists.episode_cursor, self.lists.episodes.len(), per);
        let end: usize = window_end(first, self.lists.episodes.len(), per);
        let ghost want = self@.episode_rows(now@, width, height);
        let mut rows: Vec<Vec<Span>> = Vec::new();
        let mut i: usize = first;
        assert(shown_lines(rows@) =~= want.take(0));
        while i < end
            invariant
                first <= i <= end <= self.lists.episodes@.len(),
                want == self@.episode_rows(now@, width, height),
                want.len() == end - first,
                (first as int, end as int) == page_bounds(
                    self.lists.episode_cursor,
                    self.lists.episodes@.len(),
                    height,
                    1,
                ),
                rows@.len() == i - first,
                shown_lines(rows@) == want.take(i - first),
            decreases end - i,
        {
            let episode: &Episode = &self.lists.episodes[i];
            let status: EpStatus = episode_status(
                episode,
                episode_queue_entry(&self.lists.queue, episode.id),
                now,
            );
            let line: Vec<Span> = episode_line(
                episode,
                &status,
                i == self.lists.episode_cursor,
                width,
            );
            proof {
                assert(first + (i - first) == i);
                assert(want[i - first] == shown(line@));
                lemma_line_added(rows@, line, want);
            }
            rows.push(line);
            i += 1;
        }
        assert(want.take(end - first) =~= want);
        rows
    }

    /// The search results on screen.
    pub fn release_rows(&self, width: u16, height: u16) -> (rows: Vec<Entry>)
        ensures
            entry_models(rows@) == self@.release_rows(width, height),
    {
        let per: usize = per_page(height, 3);
        let first: usize = window_start(self.lists.release_cursor, self.lists.releases.len(), per);
        let end: usize = window_end(first, self.lists.releases.len(), per);
        let ghost want = self@.release_rows(width, height);
        let mut rows: Vec<Entry> = Vec::new();
        let mut i: usize = first;
        assert(entry_models(rows@) =~= want.take(0));
        while i < end
            invariant
                first <= i <= end <= self.lists.releases@.len(),
                want == self@.release_rows(width, height),
                want.len() == end - first,
                (first as int, end as int) == page_bounds(
                    self.lists.release_cursor,
                    self.lists.releases@.len(),
                    height,
                    3,
                ),
                rows@.len() == i - first,
                entry_models(rows@) == want.take(i - first),
            decreases end - i,
        {
            let entry: Entry = release_entry(
                &self.lists.releases[i],
                &self.lists.history,
                i == self.lists.release_cursor,
                Tone::Dim,
                width_within(width, 6),
            );
            proof {
                assert(first + (i - first) == i);
                assert(want[i - first] == entry@);
                lemma_entry_added(rows@, entry, want);
            }
            rows.push(entry);
            i += 1;
        }
        assert(want.take(end - first) =~= want);
        rows
    }

    /// The lookup results on screen.
    pub fn add_rows(&self, width: u16, height: u16) -> (rows: Vec<Entry>)
        ensures
            entry_models(rows@) == self@.add_rows(width, height),
    {
        let per: usize = per_page(height, 4);
        let first: usize = window_start(self.add.cursor, self.add.results.len(), per);
        let end: usize = window_end(first, self.add.results.len(), per);
        let ghost want = self@.add_rows(width, height);
        let mut rows: Vec<Entry> = Vec::new();
        let mut i: usize = first;
        assert(entry_models(rows@) =~= want.take(0));
        while i < end
            invariant
                first <= i <= end <= self.add.results@.len(),
                want == self@.add_rows(width, height),
                want.len() == end - first,
                (first as int, end as int) == page_bounds(
                    self.add.cursor,
                    self.add.results@.len(),
                    height,
                    4,
                ),
                rows@.len() == i - first,
                entry_models(rows@) == want.take(i - first),
            decreases end - i,
        {
            let series: &Series = &self.add.results[i];
            let title: String = text_or(&series.title, "(untitled)");
            let meta: String = series_meta(series);
            let entry: Entry = found_entry(
                title.as_str(),
                meta.as_str(),
                &series.overview,
                i == self.add.cursor,
                width_within(width, 6),
            );
            proof {
                assert(first + (i - first) == i);
                assert(want[i - first] == entry@);
                lemma_entry_added(rows@, entry, want);
            }
            rows.push(entry);
            i += 1;
        }
        assert(want.take(end - first) =~= want);
        rows
    }

    /// The downloads on screen.
    pub fn download_rows(&self, width: u16, height: u16) -> (rows: Vec<Entry>)
        ensures
            entry_models(rows@) == self@.download_rows(width, height),
    {
        let per: usize = per_page(height, 3);
        let first: usize = window_start(self.downloads.cursor, self.lists.queue.len(), per);
        let end: usize = window_end(first, self.lists.queue.len(), per);
        let ghost want = self@.download_rows(width, height);
        let mut rows: Vec<Entry> = Vec::new();
        let mut i: usize = first;
        assert(entry_models(rows@) =~= want.take(0));
        while i < end
            invariant
                first <= i <= end <= self.lists.queue@.len(),
                want == self@.download_rows(width, height),
                want.len() == end - first,
                (first as int, end as int) == page_bounds(
                    self.downloads.cursor,
                    self.lists.queue@.len(),
                    height,
                    3,
                ),
                rows@.len() == i - first,
                entry_models(rows@) == want.take(i - first),
            decreases end - i,
        {
            let item: &QueueItem = &self.lists.queue[i];
            let row: DownloadRow = self.download_row(item);
            let entry: Entry = self.downloads.entry(item, &row, i == self.downloads.cursor, width);
            proof {
                assert(first + (i - first) == i);
                assert(want[i - first] == entry@);
                lemma_entry_added(rows@, entry, want);
            }
            rows.push(entry);
            i += 1;
        }
        assert(want.take(end - first) =~= want);
        rows
    }
}

/// Every visible position is one of the list.
proof fn lemma_visible_in_range(s: BrowseModel)
    requires
        s.wf(),
    ensures
        forall|k: int|
            0 <= k < s.lists.filtered.len() ==> #[trigger] s.lists.filtered[k]
                < s.lists.all_series.len(),
{
    law_filter_keeps_order(s.lists.all_series, lowercase(s.filter.input.value));
}

} // verus!
