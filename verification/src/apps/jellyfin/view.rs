//! What the Jellyfin browse screen shows: its rows as texts in tones, and the
//! hints of its keys.

use vstd::prelude::*;
use vstd::string::*;

use crate::apps::jellyfin::browse::{Browse, SeriesView};
use crate::apps::jellyfin::library::{
    has_info, info_available, is_playable, menu, playable, sort_options, LibraryLevel, SeasonRow,
    Sort, Tab, TABS,
};
use crate::apps::jellyfin::state::BrowseModel;
use crate::arr::display::{year_label, year_text};
use crate::jellyfin::{
    description_text, episode_code, is_watched, item_code, item_description, item_title, or_zero,
    season_name, title_text, watched, MediaItem,
};
use crate::sonarr::season_text;
use crate::text::{
    chars_of, decimal, join, joined, opt_text, pad_right, padded_right, push_decimal, push_opt,
    text_or, texts, with_opt,
};
use crate::ui::help::{hints, sections, Hint, Section, NAV};
use crate::ui::line::{shown, shown_lines, span, LineModel, Span, Tone};
use crate::ui::list::{entries_per_page, per_page, smaller, window_end, window_start};
use crate::ui::rows::{
    clip, clipped, detail_tone, entry_models, gutter, gutter_span, indent, indented, indented_lines,
    inner_width, lemma_entry_added, lemma_line_added, page_bounds, pair, push_blank, push_indented,
    push_line, single, width_within, Entry, EntryModel, MIN_LIST_ROWS,
};
use crate::ui::text::{set_lines, spaced_words, truncate, truncated, wrap_text};

verus! {

/// What stands between the tabs and the body.
#[derive(Debug, Clone, Copy, PartialEq, Eq, Structural)]
pub struct InputRows {
    pub search: bool,
    pub filter: bool,
}

/// What fills the middle of the screen.
#[derive(Debug, Clone, Copy, PartialEq, Eq, Structural)]
pub enum Body {
    Items,
    Info,
    Seasons,
    Episodes,
    EpisodeInfo,
}

/// How the screen is shared out: the message, the input fields and the body.
#[derive(Debug, Clone, Copy, PartialEq, Eq, Structural)]
pub struct ScreenLayout {
    pub message_rows: u16,
    pub inputs: InputRows,
    pub body: Body,
}

/// An optional text, or an empty one.
pub open spec fn named(text: Option<String>) -> Seq<char> {
    match text {
        Some(text) => text@,
        None => Seq::empty(),
    }
}

fn name_of(text: &Option<String>) -> (name: String)
    ensures
        name@ == named(*text),
{
    match text {
        Some(text) => text.clone(),
        None => String::new(),
    }
}

/// The first of the items on screen: half a page before the cursor, as far as
/// the ends of the list allow.
pub open spec fn first_centred(cursor: int, len: int, per_page: int) -> int {
    let before = cursor - per_page / 2;
    let latest = if len > per_page {
        len - per_page
    } else {
        0
    };
    if before < 0 {
        0
    } else {
        smaller(before, latest)
    }
}

/// The first of the items on screen. The cursor stays on screen.
pub fn centred_start(cursor: usize, len: usize, per_page: usize) -> (first: usize)
    requires
        per_page > 0,
    ensures
        first == first_centred(cursor as int, len as int, per_page as int),
        cursor < len ==> first <= cursor < first + per_page,
{
    let before: usize = cursor.saturating_sub(per_page / 2);
    let latest: usize = len.saturating_sub(per_page);
    if before > latest {
        latest
    } else {
        before
    }
}

/// One row of an item list: what the item is listed as, and its description;
/// dimmed where it has been watched.
pub open spec fn item_row(item: MediaItem, selected: bool, width: u16) -> EntryModel {
    EntryModel {
        title: seq![
            gutter_span(selected),
            (
                truncated(title_text(item), inner_width(width, 6)),
                if selected {
                    Tone::AccentBold
                } else if is_watched(item) {
                    Tone::Dim
                } else {
                    Tone::Fg
                },
            ),
        ],
        right: Seq::empty(),
        below: seq![
            seq![
                gutter_span(selected),
                (
                    truncated(description_text(item), inner_width(width, 6)),
                    detail_tone(selected),
                ),
            ],
        ],
    }
}

fn item_entry(item: &MediaItem, selected: bool, width: u16) -> (entry: Entry)
    ensures
        entry@ == item_row(*item, selected, width),
{
    let tone: Tone = if selected {
        Tone::AccentBold
    } else if watched(item) {
        Tone::Dim
    } else {
        Tone::Fg
    };
    let below_tone: Tone = if selected {
        Tone::AccentColor
    } else {
        Tone::Dim
    };
    let title: String = truncate(item_title(item).as_str(), width_within(width, 6));
    let detail: String = truncate(item_description(item).as_str(), width_within(width, 6));
    let mut below: Vec<Vec<Span>> = Vec::new();
    below.push(pair(gutter(selected), span(detail, below_tone)));
    let entry = Entry {
        title: pair(gutter(selected), span(title, tone)),
        right: Vec::new(),
        below,
    };
    assert(entry@.right =~= Seq::empty());
    assert(entry@.below =~= item_row(*item, selected, width).below);
    entry
}

/// Whether every episode of a season has been watched.
pub open spec fn fully_watched(season: SeasonRow) -> bool {
    season.episode_count > 0 && season.watched_count == season.episode_count
}

/// "  3/8", and a check once the whole season is watched.
pub open spec fn season_count(season: SeasonRow) -> Seq<char> {
    let ratio = "  "@ + decimal(season.watched_count as nat) + "/"@ + decimal(
        season.episode_count as nat,
    );
    if fully_watched(season) {
        ratio + " ✓"@
    } else {
        ratio
    }
}

/// One row of the season list: the name, and the watched/total ratio next to
/// it, so that the count reads as part of the season.
pub open spec fn season_row(season: SeasonRow, selected: bool) -> LineModel {
    seq![
        gutter_span(selected),
        (
            season_text(or_zero(season.number)),
            if selected {
                Tone::AccentBold
            } else if fully_watched(season) {
                Tone::Dim
            } else {
                Tone::Fg
            },
        ),
        (season_count(season), Tone::Dim),
    ]
}

fn season_line(season: &SeasonRow, selected: bool) -> (line: Vec<Span>)
    ensures
        shown(line@) == season_row(*season, selected),
{
    let done: bool = season.episode_count > 0 && season.watched_count == season.episode_count;
    let tone: Tone = if selected {
        Tone::AccentBold
    } else if done {
        Tone::Dim
    } else {
        Tone::Fg
    };
    let mut count: String = "  ".to_owned();
    push_decimal(&mut count, season.watched_count as u64);
    count.append("/");
    push_decimal(&mut count, season.episode_count as u64);
    if done {
        count.append(" ✓");
    }
    let mut line: Vec<Span> = Vec::new();
    line.push(gutter(selected));
    line.push(span(season_name(season.number), tone));
    line.push(span(count, Tone::Dim));
    assert(shown(line@) =~= season_row(*season, selected));
    line
}

/// The mark behind an episode: a check once watched, else how far it has been
/// watched, where playback has begun.
pub open spec fn episode_mark(item: MediaItem) -> Seq<char> {
    if is_watched(item) {
        "  ✓"@
    } else {
        match item.user_data {
            Some(data) => match data.progress {
                Some(percent) => "  "@ + percent@ + "%"@,
                None => Seq::empty(),
            },
            None => Seq::empty(),
        }
    }
}

fn mark_of(item: &MediaItem) -> (mark: String)
    ensures
        mark@ == episode_mark(*item),
{
    if watched(item) {
        return "  ✓".to_owned();
    }
    if let Some(data) = &item.user_data {
        if let Some(percent) = &data.progress {
            return "  ".to_owned().concat(percent.as_str()).concat("%");
        }
    }
    String::new()
}

/// The columns of an episode's title: what the bar, the code with its two
/// spaces and a fixed slot for the mark leave of a row, at least 4, so that a
/// long title never pushes the mark off the screen.
pub open spec fn title_room(code: Seq<char>, width: u16) -> nat {
    let room = inner_width(width, 1) - (3 + code.len() + 2 + 6);
    if room > 4 {
        room as nat
    } else {
        4
    }
}

/// One row of an episode list: code and title, then the mark.
pub open spec fn episode_row(item: MediaItem, selected: bool, width: u16) -> LineModel {
    let base = if selected {
        Tone::AccentBold
    } else if is_watched(item) {
        Tone::Dim
    } else {
        Tone::Fg
    };
    seq![
        gutter_span(selected),
        (item_code(item) + "  "@, base),
        (truncated(named(item.name), title_room(item_code(item), width)), base),
        (episode_mark(item), Tone::Dim),
    ]
}

fn episode_line(item: &MediaItem, selected: bool, width: u16) -> (line: Vec<Span>)
    ensures
        shown(line@) == episode_row(*item, selected, width),
{
    let base: Tone = if selected {
        Tone::AccentBold
    } else if watched(item) {
        Tone::Dim
    } else {
        Tone::Fg
    };
    let code: String = episode_code(item);
    let taken: usize = chars_of(code.as_str()).len().saturating_add(11);
    let left: usize = width_within(width, 1).saturating_sub(taken);
    let room: usize = if left > 4 {
        left
    } else {
        4
    };
    let title: String = truncate(name_of(&item.name).as_str(), room);
    let mut line: Vec<Span> = Vec::new();
    line.push(gutter(selected));
    line.push(span(code.concat("  "), base));
    line.push(span(title, base));
    line.push(span(mark_of(item), Tone::Dim));
    assert(shown(line@) =~= episode_row(*item, selected, width));
    line
}

// Texts of one item.

/// An item's overview, or that there is none.
pub open spec fn overview_text(item: MediaItem) -> Seq<char> {
    match item.overview {
        Some(overview) => overview@,
        None => "No overview available."@,
    }
}

/// The info of an item: title, description, genres and the wrapped overview.
pub open spec fn info_text(item: MediaItem, width: u16) -> Seq<LineModel> {
    let head: Seq<LineModel> = seq![
        seq![(indented(title_text(item)), Tone::AccentBold)],
        seq![(indented(description_text(item)), Tone::Dim)],
    ];
    let told = if item.genres@.len() > 0 {
        head.push(seq![("  Genres: "@ + joined(texts(item.genres@), ", "@), Tone::Dim)])
    } else {
        head
    };
    told.push(Seq::empty()) + indented_lines(
        set_lines(spaced_words(overview_text(item)), inner_width(width, 4)),
    )
}

/// The info of an item.
pub fn item_info_lines(item: &MediaItem, width: u16) -> (lines: Vec<Vec<Span>>)
    ensures
        shown_lines(lines@) == info_text(*item, width),
{
    let mut lines: Vec<Vec<Span>> = Vec::new();
    push_line(&mut lines, single(indent(item_title(item).as_str()), Tone::AccentBold));
    push_line(&mut lines, single(indent(item_description(item).as_str()), Tone::Dim));
    assert(shown_lines(lines@) =~= seq![
        seq![(indented(title_text(*item)), Tone::AccentBold)],
        seq![(indented(description_text(*item)), Tone::Dim)],
    ]);
    if item.genres.len() > 0 {
        let genres: String = "  Genres: ".to_owned().concat(join(&item.genres, ", ").as_str());
        push_line(&mut lines, single(genres, Tone::Dim));
    }
    push_blank(&mut lines);
    push_overview(&mut lines, item, width);
    lines
}

/// Put the wrapped overview behind the other lines.
fn push_overview(lines: &mut Vec<Vec<Span>>, item: &MediaItem, width: u16)
    ensures
        shown_lines(final(lines)@) == shown_lines(old(lines)@) + indented_lines(
            set_lines(spaced_words(overview_text(*item)), inner_width(width, 4)),
        ),
{
    let overview: String = text_or(&item.overview, "No overview available.");
    let wrapped: Vec<String> = wrap_text(overview.as_str(), width_within(width, 4));
    push_indented(lines, &wrapped, wrapped.len());
    assert(texts(wrapped@).take(wrapped@.len() as int) =~= texts(wrapped@));
}

/// What is known of an item's streams, each under its label.
pub open spec fn stream_lines(streams: Seq<(String, String)>) -> Seq<LineModel> {
    streams.map_values(
        |row: (String, String)|
            seq![(indented(padded_right(row.0@, 7)), Tone::Dim), (row.1@, Tone::Fg)],
    )
}

fn push_streams(lines: &mut Vec<Vec<Span>>, streams: &Vec<(String, String)>)
    ensures
        shown_lines(final(lines)@) == shown_lines(old(lines)@) + stream_lines(streams@),
{
    let ghost all = stream_lines(streams@);
    let mut i: usize = 0;
    assert(shown_lines(lines@) =~= shown_lines(old(lines)@) + all.take(0));
    while i < streams.len()
        invariant
            i <= streams@.len(),
            all == stream_lines(streams@),
            shown_lines(lines@) == shown_lines(old(lines)@) + all.take(i as int),
        decreases streams@.len() - i,
    {
        let label: String = indent(pad_right(streams[i].0.as_str(), 7).as_str());
        let value: String = streams[i].1.clone();
        push_line(lines, pair(span(label, Tone::Dim), span(value, Tone::Fg)));
        assert(all[i as int] == seq![
            (indented(padded_right(streams@[i as int].0@, 7)), Tone::Dim),
            (streams@[i as int].1@, Tone::Fg),
        ]);
        assert(shown_lines(lines@) =~= shown_lines(old(lines)@) + all.take(i + 1));
        i += 1;
    }
    assert(all.take(i as int) =~= all);
}

/// The info of an episode: code and title, description, streams and the
/// wrapped overview.
pub open spec fn episode_text(item: MediaItem, width: u16) -> Seq<LineModel> {
    let head: Seq<LineModel> = seq![
        seq![(indented(item_code(item) + "  "@ + named(item.name)), Tone::AccentBold)],
    ];
    let told = if description_text(item).len() > 0 {
        head.push(seq![(indented(description_text(item)), Tone::Dim)])
    } else {
        head
    };
    (told + stream_lines(item.streams@)).push(Seq::empty()) + indented_lines(
        set_lines(spaced_words(overview_text(item)), inner_width(width, 4)),
    )
}

/// The info of an episode.
pub fn episode_info_lines(item: &MediaItem, width: u16) -> (lines: Vec<Vec<Span>>)
    ensures
        shown_lines(lines@) == episode_text(*item, width),
{
    let mut lines: Vec<Vec<Span>> = Vec::new();
    let title: String = episode_code(item).concat("  ").concat(name_of(&item.name).as_str());
    push_line(&mut lines, single(indent(title.as_str()), Tone::AccentBold));
    assert(shown_lines(lines@) =~= seq![seq![(indented(title@), Tone::AccentBold)]]);
    let meta: String = item_description(item);
    if !meta.as_str().is_empty() {
        push_line(&mut lines, single(indent(meta.as_str()), Tone::Dim));
    }
    push_streams(&mut lines, &item.streams);
    push_blank(&mut lines);
    push_overview(&mut lines, item, width);
    lines
}

/// What the header's second line tells, as far as known: "2024", "8.1".
pub open spec fn header_parts(series: MediaItem) -> Seq<Seq<char>> {
    with_opt(
        with_opt(Seq::empty(), year_text(series.production_year)),
        opt_text(series.rating),
    )
}

/// The whole header of a series: title, meta line where anything is known, the
/// overview, and blanks around it.
pub open spec fn header_text(series: MediaItem, width: u16) -> Seq<LineModel> {
    let head: Seq<LineModel> = seq![seq![(indented(title_text(series)), Tone::AccentBold)]];
    let told = if header_parts(series).len() > 0 {
        head.push(seq![(indented(joined(header_parts(series), " · "@)), Tone::Dim)])
    } else {
        head
    };
    (told.push(Seq::empty()) + indented_lines(
        set_lines(spaced_words(clipped(overview_text(series))), inner_width(width, 4)),
    )).push(Seq::empty())
}

/// The rows that the header of a series takes at most: what the list below
/// leaves, at least one.
pub open spec fn header_rows(height: u16) -> nat {
    if height > MIN_LIST_ROWS + 1 {
        (height - MIN_LIST_ROWS) as nat
    } else {
        1
    }
}

/// As much of the header as its rows hold.
pub open spec fn series_header(series: MediaItem, width: u16, height: u16) -> Seq<LineModel> {
    let all = header_text(series, width);
    all.take(smaller(all.len() as int, header_rows(height) as int))
}

/// The header of a series, which stays on screen on all its pages; a very long
/// synopsis can't push the list below it off the screen.
pub fn series_header_lines(series: &MediaItem, width: u16, height: u16) -> (lines: Vec<Vec<Span>>)
    ensures
        shown_lines(lines@) == series_header(*series, width, height),
        lines@.len() <= header_rows(height),
{
    let mut lines: Vec<Vec<Span>> = Vec::new();
    push_line(&mut lines, single(indent(item_title(series).as_str()), Tone::AccentBold));
    assert(shown_lines(lines@) =~= seq![
        seq![(indented(title_text(*series)), Tone::AccentBold)],
    ]);
    let mut parts: Vec<String> = Vec::new();
    assert(texts(parts@) =~= Seq::empty());
    push_opt(&mut parts, year_label(series.production_year));
    push_opt(&mut parts, series.rating.clone());
    assert(texts(parts@) == header_parts(*series));
    if parts.len() > 0 {
        push_line(&mut lines, single(indent(join(&parts, " · ").as_str()), Tone::Dim));
    }
    push_blank(&mut lines);
    let overview: String = clip(text_or(&series.overview, "No overview available.").as_str());
    let wrapped: Vec<String> = wrap_text(overview.as_str(), width_within(width, 4));
    push_indented(&mut lines, &wrapped, wrapped.len());
    assert(texts(wrapped@).take(wrapped@.len() as int) =~= texts(wrapped@));
    push_blank(&mut lines);
    let left: u16 = height.saturating_sub(MIN_LIST_ROWS);
    let room: usize = if left > 1 {
        left as usize
    } else {
        1
    };
    let ghost all = lines@;
    if lines.len() > room {
        lines.truncate(room);
        assert(shown_lines(lines@) =~= shown_lines(all).take(room as int));
    } else {
        assert(shown_lines(all).take(all.len() as int) =~= shown_lines(all));
    }
    lines
}

impl BrowseModel {
    /// The hints of the pages of a series.
    pub open spec fn series_hints(self) -> Seq<Hint> {
        let help = if self.status.show_full_help {
            "close help"
        } else {
            "help"
        };
        match self.place.view {
            SeriesView::Seasons => seq![
                ("↑/↓", "move"),
                ("enter", "open season"),
                ("esc", "back"),
                ("r", "refresh"),
                ("?", help),
                ("q", "quit"),
            ],
            SeriesView::Episodes => seq![
                ("↑/↓", "move"),
                ("enter", "play"),
                ("i", "info"),
                ("w", "watched"),
                ("esc", "back"),
                ("r", "refresh"),
                ("?", help),
                ("q", "quit"),
            ],
            SeriesView::EpisodeInfo => seq![
                ("↑/↓", "scroll"),
                ("←/→", "page"),
                ("g/G", "top/bottom"),
                ("i/esc", "close"),
                ("q", "quit"),
            ],
        }
    }

    /// The hints for the selected item.
    pub open spec fn item_hints(self) -> Seq<Hint> {
        let back: Seq<Hint> = if self.drilled_in() {
            seq![("esc", "back")]
        } else {
            Seq::empty()
        };
        let mark: Seq<Hint> = match self.current_item() {
            Some(item) => if is_playable(*item) {
                back.push(("w", "toggle watched"))
            } else {
                back
            },
            None => back,
        };
        match self.current_item() {
            Some(item) => if has_info(*item) {
                mark.push(("i", "info"))
            } else {
                mark
            },
            None => mark,
        }
    }

    /// The hints for the search field or the filter of the list; there is no
    /// filter at the root of the libraries.
    pub open spec fn field_hints(self) -> Seq<Hint> {
        if self.place.tab == Tab::Search && self.place.series is None {
            if self.inputs.search.value.len() > 0 {
                seq![("/", "search"), ("esc", "clear")]
            } else {
                seq![("/", "search")]
            }
        } else if self.in_libraries() && self.place.level is Root {
            Seq::empty()
        } else if self.inputs.filter_active {
            seq![("/", "filter"), ("esc", "clear")]
        } else {
            seq![("/", "filter")]
        }
    }

    /// The hints shown at the foot of the screen.
    pub open spec fn hints(self) -> Seq<Hint> {
        if self.inputs.search_focused || self.inputs.filter_focused {
            seq![("esc", "cancel"), ("enter", "apply")]
        } else if self.popups.sort_menu is Some {
            seq![("esc", "close"), ("enter", "select")]
        } else if self.popups.info_open {
            seq![
                ("↑/↓", "scroll"),
                ("←/→", "page"),
                ("g/G", "top/bottom"),
                ("i/esc", "close"),
            ]
        } else if self.place.series is Some {
            self.series_hints()
        } else {
            let own = self.item_hints() + self.field_hints();
            let sorted = if self.sort_key_available() {
                own.push(("v", "sort"))
            } else {
                own
            };
            sorted.push(
                (
                    "?",
                    if self.status.show_full_help {
                        "close help"
                    } else {
                        "help"
                    },
                ),
            ).push(("q", "quit"))
        }
    }

    /// The keys that move: through the list, and between the tabs where they
    /// are on screen.
    pub open spec fn moves(self) -> Seq<Hint> {
        if !self.drilled_in() && !self.popups.info_open {
            NAV@.push(("tab", "next tab")).push(("shift+tab", "prev tab"))
        } else {
            NAV@
        }
    }

    /// "Library" or "Library / Collection" while drilled into the libraries.
    pub open spec fn breadcrumb(self) -> Option<Seq<char>> {
        if self.place.tab != Tab::Libraries {
            None
        } else {
            match self.place.level {
                LibraryLevel::Root => None,
                LibraryLevel::Library { library, .. } => Some(named(library.name)),
                LibraryLevel::Collection { library, collection } => Some(
                    named(library.name) + " / "@ + named(collection.name),
                ),
            }
        }
    }

    /// The tabs, the open one highlighted.
    pub open spec fn tab_strip(self) -> LineModel {
        Seq::new(
            10,
            |k: int|
                if k % 2 == 0 {
                    (
                        " "@ + TABS@[k / 2].label()@ + " "@,
                        if TABS@[k / 2] == self.place.tab {
                            Tone::Badge
                        } else {
                            Tone::Tab
                        },
                    )
                } else {
                    (" "@, Tone::Raw)
                },
        )
    }

    /// The row at the top: the open series, else the path through the
    /// libraries, else the tabs.
    pub open spec fn top_row(self) -> LineModel {
        let start: LineModel = seq![(" "@, Tone::Raw)];
        match self.place.series {
            Some(series) => start.push((" "@ + title_text(*series) + " "@, Tone::Badge)),
            None => match self.breadcrumb() {
                Some(path) => start.push((" "@ + path + " "@, Tone::Badge)),
                None => start + self.tab_strip(),
            },
        }
    }

    /// The row above the tabs: an error before a notice.
    pub open spec fn message(self) -> Option<(Seq<char>, Tone)> {
        if self.status.error is Some {
            Some(("Error: "@ + self.status.error->0, Tone::Error))
        } else if self.status.notice is Some {
            Some((self.status.notice->0@, Tone::Accent))
        } else {
            None
        }
    }

    /// How the screen is shared out.
    pub open spec fn layout(self) -> ScreenLayout {
        ScreenLayout {
            message_rows: if self.status.error is Some || self.status.notice is Some {
                1
            } else {
                0
            },
            inputs: InputRows {
                search: self.place.tab == Tab::Search && self.place.series is None,
                filter: self.inputs.filter_active && self.place.series is None,
            },
            body: if self.place.series is Some {
                match self.place.view {
                    SeriesView::Seasons => Body::Seasons,
                    SeriesView::Episodes => Body::Episodes,
                    SeriesView::EpisodeInfo => Body::EpisodeInfo,
                }
            } else if self.popups.info_open {
                Body::Info
            } else {
                Body::Items
            },
        }
    }

    /// What an empty list says.
    pub open spec fn empty_message(self) -> &'static str {
        if self.status.loading {
            "  Loading..."
        } else if self.place.series is None {
            "  No items."
        } else if self.place.view == SeriesView::Seasons {
            "  No seasons."
        } else {
            "  No episodes."
        }
    }

    /// The items on screen.
    pub open spec fn item_rows(self, width: u16, height: u16) -> Seq<EntryModel> {
        let all = self.lists.items;
        let per = entries_per_page(height, 3) as int;
        let first = first_centred(self.lists.cursor as int, all.len() as int, per);
        Seq::new(
            (smaller(first + per, all.len() as int) - first) as nat,
            |k: int| item_row(*all[first + k], first + k == self.lists.cursor, width),
        )
    }

    /// The seasons on screen.
    pub open spec fn season_rows(self, height: u16) -> Seq<LineModel> {
        let all = self.lists.seasons;
        let (first, end) = page_bounds(self.lists.season_cursor, all.len(), height, 1);
        Seq::new(
            (end - first) as nat,
            |k: int| season_row(all[first + k], first + k == self.lists.season_cursor),
        )
    }

    /// The episodes on screen.
    pub open spec fn episode_rows(self, width: u16, height: u16) -> Seq<LineModel> {
        let all = self.lists.items;
        let (first, end) = page_bounds(self.lists.cursor, all.len(), height, 1);
        Seq::new(
            (end - first) as nat,
            |k: int| episode_row(*all[first + k], first + k == self.lists.cursor, width),
        )
    }
}

impl Browse {
    fn series_help(&self) -> (entries: Vec<Hint>)
        ensures
            entries@ == self@.series_hints(),
    {
        let help: &'static str = if self.status.show_full_help {
            "close help"
        } else {
            "help"
        };
        match self.place.view {
            SeriesView::Seasons => vec![
                ("↑/↓", "move"),
                ("enter", "open season"),
                ("esc", "back"),
                ("r", "refresh"),
                ("?", help),
                ("q", "quit"),
            ],
            SeriesView::Episodes => vec![
                ("↑/↓", "move"),
                ("enter", "play"),
                ("i", "info"),
                ("w", "watched"),
                ("esc", "back"),
                ("r", "refresh"),
                ("?", help),
                ("q", "quit"),
            ],
            SeriesView::EpisodeInfo => vec![
                ("↑/↓", "scroll"),
                ("←/→", "page"),
                ("g/G", "top/bottom"),
                ("i/esc", "close"),
                ("q", "quit"),
            ],
        }
    }

    fn item_help(&self) -> (entries: Vec<Hint>)
        ensures
            entries@ == self@.item_hints(),
    {
        let mut entries: Vec<Hint> = Vec::new();
        if self.drilled_in() {
            entries.push(("esc", "back"));
        }
        if let Some(item) = self.current_item() {
            if playable(&item) {
                entries.push(("w", "toggle watched"));
            }
            if info_available(&item) {
                entries.push(("i", "info"));
            }
        }
        assert(entries@ =~= self@.item_hints());
        entries
    }

    fn field_help(&self) -> (entries: Vec<Hint>)
        ensures
            entries@ == self@.field_hints(),
    {
        if self.place.tab == Tab::Search && self.place.series.is_none() {
            if self.inputs.search.value().is_empty() {
                vec![("/", "search")]
            } else {
                vec![("/", "search"), ("esc", "clear")]
            }
        } else if self.place.tab == Tab::Libraries && self.place.series.is_none() && matches!(
            self.place.level,
            LibraryLevel::Root
        ) {
            Vec::new()
        } else if self.inputs.filter_active {
            vec![("/", "filter"), ("esc", "clear")]
        } else {
            vec![("/", "filter")]
        }
    }

    /// The hints shown at the foot of the screen: those of whatever takes the
    /// keys right now.
    pub fn help_entries(&self) -> (entries: Vec<Hint>)
        ensures
            entries@ == self@.hints(),
    {
        if self.inputs.search_focused || self.inputs.filter_focused {
            return vec![("esc", "cancel"), ("enter", "apply")];
        }
        if self.popups.sort_menu.is_some() {
            return vec![("esc", "close"), ("enter", "select")];
        }
        if self.popups.info_open {
            return vec![
                ("↑/↓", "scroll"),
                ("←/→", "page"),
                ("g/G", "top/bottom"),
                ("i/esc", "close"),
            ];
        }
        if self.place.series.is_some() {
            return self.series_help();
        }
        let mut entries: Vec<Hint> = self.item_help();
        let mut fields: Vec<Hint> = self.field_help();
        entries.append(&mut fields);
        if self.sort_key_available() {
            entries.push(("v", "sort"));
        }
        entries.push(
            (
                "?",
                if self.status.show_full_help {
                    "close help"
                } else {
                    "help"
                },
            ),
        );
        entries.push(("q", "quit"));
        entries
    }

    /// Columns for the expanded (`?`) help: navigation, and the hints that
    /// apply to the current screen.
    pub fn help_sections(&self) -> (list: Vec<Section>)
        ensures
            sections(list@) == seq![("Move", self@.moves()), ("Actions", self@.hints())],
    {
        let mut moves: Vec<Hint> = hints(NAV.as_slice());
        if !self.drilled_in() && !self.popups.info_open {
            moves.push(("tab", "next tab"));
            moves.push(("shift+tab", "prev tab"));
        }
        let list: Vec<Section> = vec![
            Section { title: "Move", entries: moves },
            Section { title: "Actions", entries: self.help_entries() },
        ];
        assert(sections(list@) =~= seq![("Move", self@.moves()), ("Actions", self@.hints())]);
        list
    }

    /// "Library" or "Library / Collection" while drilled into the libraries;
    /// `None` at the root, where the tabs are shown instead.
    pub fn library_breadcrumb(&self) -> (path: Option<String>)
        ensures
            opt_text(path) == self@.breadcrumb(),
    {
        if self.place.tab != Tab::Libraries {
            return None;
        }
        match &self.place.level {
            LibraryLevel::Root => None,
            LibraryLevel::Library { library, .. } => Some(name_of(&library.name)),
            LibraryLevel::Collection { library, collection } => Some(
                name_of(&library.name).concat(" / ").concat(name_of(&collection.name).as_str()),
            ),
        }
    }

    fn push_tabs(&self, line: &mut Vec<Span>)
        ensures
            shown(final(line)@) == shown(old(line)@) + self@.tab_strip(),
    {
        let ghost strip = self@.tab_strip();
        let mut i: usize = 0;
        assert(shown(line@) =~= shown(old(line)@) + strip.take(0));
        while i < 5
            invariant
                i <= 5,
                strip == self@.tab_strip(),
                shown(line@) == shown(old(line)@) + strip.take(2 * i),
            decreases 5 - i,
        {
            let tab: Tab = TABS[i];
            let tone: Tone = if tab == self.place.tab {
                Tone::Badge
            } else {
                Tone::Tab
            };
            let name: String = " ".to_owned().concat(tab.name()).concat(" ");
            assert(strip[2 * i] == (name@, tone));
            assert(strip[2 * i + 1] == (" "@, Tone::Raw));
            let ghost before = shown(line@);
            line.push(span(name, tone));
            line.push(span(" ".to_owned(), Tone::Raw));
            assert(shown(line@) =~= before.push((name@, tone)).push((" "@, Tone::Raw)));
            assert(strip.take(2 * (i + 1)) =~= strip.take(2 * i).push(strip[2 * i]).push(
                strip[2 * i + 1],
            ));
            assert(shown(line@) =~= shown(old(line)@) + strip.take(2 * (i + 1)));
            i += 1;
        }
        assert(strip.take(10) =~= strip);
    }

    /// The row at the top: the open series, else the path through the
    /// libraries, else the tabs.
    pub fn tab_row(&self) -> (line: Vec<Span>)
        ensures
            shown(line@) == self@.top_row(),
    {
        let mut line: Vec<Span> = single(" ".to_owned(), Tone::Raw);
        let ghost start = shown(line@);
        let path: Option<String> = match &self.place.series {
            Some(series) => Some(item_title(series)),
            None => self.library_breadcrumb(),
        };
        match path {
            Some(path) => {
                let badge: String = " ".to_owned().concat(path.as_str()).concat(" ");
                line.push(span(badge, Tone::Badge));
                assert(shown(line@) =~= start.push((badge@, Tone::Badge)));
            },
            None => {
                self.push_tabs(&mut line);
            },
        }
        line
    }

    /// The row above the tabs: an error before a notice.
    pub fn message_row(&self) -> (row: Option<Span>)
        ensures
            row is Some == self@.message() is Some,
            row is Some ==> row->0@ == self@.message()->0,
    {
        match &self.status.error {
            Some(error) => Some(span("Error: ".to_owned().concat(error.as_str()), Tone::Error)),
            None => match self.status.notice {
                Some(notice) => Some(span(notice.to_owned(), Tone::Accent)),
                None => None,
            },
        }
    }

    /// How the screen is shared out.
    pub fn screen_layout(&self) -> (layout: ScreenLayout)
        ensures
            layout == self@.layout(),
    {
        ScreenLayout {
            message_rows: if self.status.error.is_some() || self.status.notice.is_some() {
                1
            } else {
                0
            },
            inputs: InputRows {
                search: self.place.tab == Tab::Search && self.place.series.is_none(),
                filter: self.inputs.filter_active && self.place.series.is_none(),
            },
            body: if self.place.series.is_some() {
                match self.place.view {
                    SeriesView::Seasons => Body::Seasons,
                    SeriesView::Episodes => Body::Episodes,
                    SeriesView::EpisodeInfo => Body::EpisodeInfo,
                }
            } else if self.popups.info_open {
                Body::Info
            } else {
                Body::Items
            },
        }
    }

    /// What an empty list says.
    pub fn empty_note(&self) -> (text: &'static str)
        ensures
            text == self@.empty_message(),
    {
        if self.status.loading {
            "  Loading..."
        } else if self.place.series.is_none() {
            "  No items."
        } else if self.place.view == SeriesView::Seasons {
            "  No seasons."
        } else {
            "  No episodes."
        }
    }

    /// The items on screen.
    pub fn item_rows(&self, width: u16, height: u16) -> (rows: Vec<Entry>)
        ensures
            entry_models(rows@) == self@.item_rows(width, height),
    {
        let per: usize = per_page(height, 3);
        let first: usize = centred_start(self.lists.cursor, self.lists.items.len(), per);
        let end: usize = window_end(first, self.lists.items.len(), per);
        let ghost want = self@.item_rows(width, height);
        let mut rows: Vec<Entry> = Vec::new();
        let mut i: usize = first;
        assert(entry_models(rows@) =~= want.take(0));
        while i < end
            invariant
                first <= i <= end <= self.lists.items@.len(),
                want == self@.item_rows(width, height),
                want.len() == end - first,
                first == first_centred(
                    self.lists.cursor as int,
                    self.lists.items@.len() as int,
                    entries_per_page(height, 3) as int,
                ),
                rows@.len() == i - first,
                entry_models(rows@) == want.take(i - first),
            decreases end - i,
        {
            let entry: Entry = item_entry(&self.lists.items[i], i == self.lists.cursor, width);
            proof {
                assert(first + (i - first) == i);
                assert(want[i - first] == entry@);
                lemma_entry_added(rows@, entry, want);
            }
            rows.push(entry);
            i += 1;
        }
        assert(want.take(end - first) =~= want);
        rows
    }

    /// The seasons on screen.
    pub fn season_rows(&self, height: u16) -> (rows: Vec<Vec<Span>>)
        ensures
            shown_lines(rows@) == self@.season_rows(height),
    {
        let per: usize = per_page(height, 1);
        let first: usize = window_start(self.lists.season_cursor, self.lists.seasons.len(), per);
        let end: usize = window_end(first, self.lists.seasons.len(), per);
        let ghost want = self@.season_rows(height);
        let mut rows: Vec<Vec<Span>> = Vec::new();
        let mut i: usize = first;
        assert(shown_lines(rows@) =~= want.take(0));
        while i < end
            invariant
                first <= i <= end <= self.lists.seasons@.len(),
                want == self@.season_rows(height),
                want.len() == end - first,
                (first as int, end as int) == page_bounds(
                    self.lists.season_cursor,
                    self.lists.seasons@.len(),
                    height,
                    1,
                ),
                rows@.len() == i - first,
                shown_lines(rows@) == want.take(i - first),
            decreases end - i,
        {
            let line: Vec<Span> = season_line(
                &self.lists.seasons[i],
                i == self.lists.season_cursor,
            );
            proof {
                assert(first + (i - first) == i);
                assert(want[i - first] == shown(line@));
                lemma_line_added(rows@, line, want);
            }
            rows.push(line);
            i += 1;
        }
        assert(want.take(end - first) =~= want);
        rows
    }

    /// The episodes on screen.
    pub fn episode_rows(&self, width: u16, height: u16) -> (rows: Vec<Vec<Span>>)
        ensures
            shown_lines(rows@) == self@.episode_rows(width, height),
    {
        let per: usize = per_page(height, 1);
        let first: usize = window_start(self.lists.cursor, self.lists.items.len(), per);
        let end: usize = window_end(first, self.lists.items.len(), per);
        let ghost want = self@.episode_rows(width, height);
        let mut rows: Vec<Vec<Span>> = Vec::new();
        let mut i: usize = first;
        assert(shown_lines(rows@) =~= want.take(0));
        while i < end
            invariant
                first <= i <= end <= self.lists.items@.len(),
                want == self@.episode_rows(width, height),
                want.len() == end - first,
                (first as int, end as int) == page_bounds(
                    self.lists.cursor,
                    self.lists.items@.len(),
                    height,
                    1,
                ),
                rows@.len() == i - first,
                shown_lines(rows@) == want.take(i - first),
            decreases end - i,
        {
            let line: Vec<Span> = episode_line(
                &self.lists.items[i],
                i == self.lists.cursor,
                width,
            );
            proof {
                assert(first + (i - first) == i);
                assert(want[i - first] == shown(line@));
                lemma_line_added(rows@, line, want);
            }
            rows.push(line);
            i += 1;
        }
        assert(want.take(end - first) =~= want);
        rows
    }

    /// The entries of the sort menu.
    pub fn sort_labels(&self) -> (labels: Vec<&'static str>)
        ensures
            labels@ == menu().map_values(|sort: Sort| sort.caption()),
    {
        let options: Vec<Sort> = sort_options();
        let mut labels: Vec<&'static str> = Vec::new();
        let mut i: usize = 0;
        while i < options.len()
            invariant
                options@ == menu(),
                i <= options@.len(),
                labels@ == menu().take(i as int).map_values(|sort: Sort| sort.caption()),
            decreases options@.len() - i,
        {
            labels.push(options[i].label());
            assert(labels@ =~= menu().take(i + 1).map_values(|sort: Sort| sort.caption()));
            i += 1;
        }
        assert(menu().take(i as int) =~= menu());
        labels
    }
}

} // verus!
