//! The rows of the settings screen.

use vstd::prelude::*;
use vstd::string::*;

use crate::apps::settings::backend::{backend_host, backend_label, host_of, label_of};
use crate::apps::settings::{preference_label, preference_text, rows, rows_of, Editing, Setting};
use crate::config::{Config, ConfigModel};
use crate::text::{pad_right, padded_right};
use crate::ui::line::{shown, shown_lines, span, LineModel, Span, Tone};
use crate::ui::theme::{Accent, ACCENTS, THEMES};

verus! {

/// The gutter of a row and the tone of its label.
pub open spec fn marker(selected: bool) -> (Seq<char>, Tone) {
    if selected {
        ("  > "@, Tone::Selected)
    } else {
        ("    "@, Tone::Fg)
    }
}

fn marker_span(selected: bool) -> (s: Span)
    ensures
        s@ == marker(selected),
{
    if selected {
        span("  > ".to_owned(), Tone::Selected)
    } else {
        span("    ".to_owned(), Tone::Fg)
    }
}

/// A host, or the hint that there is none.
pub open spec fn host_summary(host: Seq<char>) -> Seq<char> {
    if host.len() == 0 {
        "not configured"@
    } else {
        host
    }
}

/// A host, or the hint that there is none.
pub fn summary_of(host: &str) -> (summary: String)
    ensures
        summary@ == host_summary(host@),
{
    if host.is_empty() {
        "not configured".to_owned()
    } else {
        host.to_owned()
    }
}

/// A settings row: `> Theme    Catppuccin Latte` (Accent adds a colour swatch,
/// a backend shows its configured host).
pub open spec fn setting_line(setting: Setting, selected: bool, config: ConfigModel) -> LineModel {
    let tone = marker(selected).1;
    match setting {
        Setting::Theme => seq![
            marker(selected),
            ("Theme    "@, tone),
            (config.theme.name()@, Tone::Dim),
        ],
        Setting::Accent => seq![
            marker(selected),
            ("Accent   "@, tone),
            ("\u{2588} "@, Tone::Swatch(config.accent)),
            (config.accent.name()@, Tone::Dim),
        ],
        _ => seq![
            marker(selected),
            (padded_right(label_of(setting)@, 9), tone),
            (host_summary(host_of(setting, config)->0), Tone::Dim),
        ],
    }
}

/// A settings row.
pub fn setting_row(setting: Setting, selected: bool, config: &Config) -> (line: Vec<Span>)
    ensures
        shown(line@) == setting_line(setting, selected, config@),
{
    let first: Span = marker_span(selected);
    let tone: Tone = first.tone;
    let mut line: Vec<Span> = vec![first];
    match setting {
        Setting::Theme => {
            line.push(span("Theme    ".to_owned(), tone));
            line.push(span(config.theme.title().to_owned(), Tone::Dim));
        },
        Setting::Accent => {
            line.push(span("Accent   ".to_owned(), tone));
            line.push(span("\u{2588} ".to_owned(), Tone::Swatch(config.accent)));
            line.push(span(config.accent.title().to_owned(), Tone::Dim));
        },
        Setting::Jellyfin | Setting::Radarr | Setting::Sonarr => {
            line.push(span(pad_right(backend_label(setting), 9), tone));
            let host: &str = match backend_host(setting, config) {
                Some(host) => host,
                None => "",
            };
            line.push(span(summary_of(host), Tone::Dim));
        },
    }
    assert(shown(line@) =~= setting_line(setting, selected, config@));
    line
}

/// The settings list with the cursor on one of its rows.
pub open spec fn list_lines(cursor: usize, config: ConfigModel) -> Seq<LineModel> {
    Seq::new(
        rows_of(config.theme).len(),
        |i: int| setting_line(rows_of(config.theme)[i], i == cursor, config),
    )
}

/// The settings list with the cursor on one of its rows.
pub fn list_rows(cursor: usize, config: &Config) -> (lines: Vec<Vec<Span>>)
    ensures
        shown_lines(lines@) == list_lines(cursor, config@),
{
    let rows: Vec<Setting> = rows(config.theme);
    let mut lines: Vec<Vec<Span>> = Vec::new();
    let mut i: usize = 0;
    while i < rows.len()
        invariant
            i <= rows@.len(),
            rows@ == rows_of(config@.theme),
            lines@.len() == i,
            forall|j: int|
                0 <= j < i ==> shown((#[trigger] lines@[j])@) == setting_line(
                    rows@[j],
                    j == cursor,
                    config@,
                ),
        decreases rows@.len() - i,
    {
        lines.push(setting_row(rows[i], i == cursor, config));
        i += 1;
    }
    assert(shown_lines(lines@) =~= list_lines(cursor, config@));
    lines
}

/// A choice row inside an open editor, optionally with a colour swatch.
pub open spec fn choice_model(selected: bool, swatch: Option<Accent>, title: Seq<char>) -> LineModel {
    let tone = marker(selected).1;
    match swatch {
        Some(accent) => seq![
            marker(selected),
            ("\u{2588} "@, Tone::Swatch(accent)),
            (title, tone),
        ],
        None => seq![marker(selected), (title, tone)],
    }
}

/// A choice row inside an open editor, optionally with a colour swatch.
pub fn choice_line(selected: bool, swatch: Option<Accent>, title: &'static str) -> (line: Vec<Span>)
    ensures
        shown(line@) == choice_model(selected, swatch, title@),
{
    let first: Span = marker_span(selected);
    let tone: Tone = first.tone;
    let mut line: Vec<Span> = vec![first];
    if let Some(accent) = swatch {
        line.push(span("\u{2588} ".to_owned(), Tone::Swatch(accent)));
    }
    line.push(span(title.to_owned(), tone));
    assert(shown(line@) =~= choice_model(selected, swatch, title@));
    line
}

/// The header of an open choice list.
pub open spec fn choice_header(setting: Setting) -> &'static str {
    match setting {
        Setting::Theme => "Theme",
        Setting::Accent => "Accent",
        _ => "",
    }
}

/// The choices of an open list, the cursor's one marked.
pub open spec fn choice_lines(editing: Editing, config: ConfigModel) -> Seq<LineModel> {
    match editing.setting {
        Setting::Theme => Seq::new(
            THEMES@.len(),
            |i: int| choice_model(i == editing.cursor, None, THEMES@[i].name()@),
        ),
        Setting::Accent => Seq::new(
            config.theme.accents() as nat,
            |i: int|
                choice_model(i == editing.cursor, Some(ACCENTS@[i]), ACCENTS@[i].name()@),
        ),
        _ => Seq::empty(),
    }
}

/// The header and the rows of an open choice list.
pub fn draw_editor(editing: &Editing, config: &Config) -> (page: (&'static str, Vec<Vec<Span>>))
    ensures
        page.0 == choice_header(editing.setting),
        shown_lines(page.1@) == choice_lines(*editing, config@),
{
    let mut lines: Vec<Vec<Span>> = Vec::new();
    let mut i: usize = 0;
    match editing.setting {
        Setting::Theme => {
            while i < THEMES.len()
                invariant
                    i <= THEMES@.len(),
                    lines@.len() == i,
                    forall|j: int|
                        0 <= j < i ==> shown((#[trigger] lines@[j])@) == choice_model(
                            j == editing.cursor,
                            None,
                            THEMES@[j].name()@,
                        ),
                decreases THEMES@.len() - i,
            {
                lines.push(choice_line(i == editing.cursor, None, THEMES[i].title()));
                i += 1;
            }
            assert(shown_lines(lines@) =~= choice_lines(*editing, config@));
            ("Theme", lines)
        },
        Setting::Accent => {
            let count: usize = config.theme.accent_count();
            while i < count
                invariant
                    i <= count == config@.theme.accents(),
                    count <= 14,
                    lines@.len() == i,
                    forall|j: int|
                        0 <= j < i ==> shown((#[trigger] lines@[j])@) == choice_model(
                            j == editing.cursor,
                            Some(ACCENTS@[j]),
                            ACCENTS@[j].name()@,
                        ),
                decreases count - i,
            {
                let accent: Accent = ACCENTS[i];
                lines.push(choice_line(i == editing.cursor, Some(accent), accent.title()));
                i += 1;
            }
            assert(shown_lines(lines@) =~= choice_lines(*editing, config@));
            ("Accent", lines)
        },
        // Backends never open a choice list.
        Setting::Jellyfin | Setting::Radarr | Setting::Sonarr => {
            assert(shown_lines(lines@) =~= choice_lines(*editing, config@));
            ("", lines)
        },
    }
}

/// A `Label   summary` row for the submenu and language pages.
pub open spec fn menu_line(selected: bool, label: Seq<char>, summary: Seq<char>) -> LineModel {
    seq![
        marker(selected),
        (padded_right(label, 12), marker(selected).1),
        (summary, Tone::Dim),
    ]
}

/// A `Label   summary` row for the submenu and language pages.
pub fn menu_row(selected: bool, label: &str, summary: String) -> (line: Vec<Span>)
    ensures
        shown(line@) == menu_line(selected, label@, summary@),
{
    let first: Span = marker_span(selected);
    let tone: Tone = first.tone;
    let line: Vec<Span> = vec![first, span(pad_right(label, 12), tone), span(summary, Tone::Dim)];
    assert(shown(line@) =~= menu_line(selected, label@, summary@));
    line
}

/// The rows of the Jellyfin submenu.
pub open spec fn submenu_lines(cursor: usize, config: ConfigModel) -> Seq<LineModel> {
    seq![
        menu_line(cursor == 0, "Credentials"@, host_summary(config.jellyfin.host)),
        menu_line(
            cursor == 1,
            "Language"@,
            "audio: "@ + preference_text(config.jellyfin.audio_language) + "   subs: "@
                + preference_text(config.jellyfin.subtitle_language),
        ),
    ]
}

/// The rows of the Jellyfin submenu.
pub fn submenu_rows(cursor: usize, config: &Config) -> (lines: Vec<Vec<Span>>)
    ensures
        shown_lines(lines@) == submenu_lines(cursor, config@),
{
    let mut languages: String = "audio: ".to_owned();
    languages.append(preference_label(&config.jellyfin.audio_language).as_str());
    languages.append("   subs: ");
    languages.append(preference_label(&config.jellyfin.subtitle_language).as_str());
    let lines: Vec<Vec<Span>> = vec![
        menu_row(cursor == 0, "Credentials", summary_of(config.jellyfin.host.as_str())),
        menu_row(cursor == 1, "Language", languages),
    ];
    assert(shown_lines(lines@) =~= submenu_lines(cursor, config@));
    lines
}

/// The rows of the language page.
pub open spec fn language_lines(cursor: usize, config: ConfigModel) -> Seq<LineModel> {
    seq![
        menu_line(cursor == 0, "Audio"@, preference_text(config.jellyfin.audio_language)),
        menu_line(cursor == 1, "Subtitles"@, preference_text(config.jellyfin.subtitle_language)),
    ]
}

/// The rows of the language page.
pub fn language_rows(cursor: usize, config: &Config) -> (lines: Vec<Vec<Span>>)
    ensures
        shown_lines(lines@) == language_lines(cursor, config@),
{
    let lines: Vec<Vec<Span>> = vec![
        menu_row(cursor == 0, "Audio", preference_label(&config.jellyfin.audio_language)),
        menu_row(cursor == 1, "Subtitles", preference_label(&config.jellyfin.subtitle_language)),
    ];
    assert(shown_lines(lines@) =~= language_lines(cursor, config@));
    lines
}

/// The title over an open language picker.
pub fn picker_title(cursor: usize) -> (title: &'static str)
    ensures
        title == (if cursor == 0 {
            "Preferred audio language"
        } else {
            "Preferred subtitles language"
        }),
{
    if cursor == 0 {
        "Preferred audio language"
    } else {
        "Preferred subtitles language"
    }
}

/// Each server's line tells the host of that server, or that there is none, and
/// the line at the cursor is highlighted.
pub proof fn law_each_line_tells_its_own_setting(config: ConfigModel, selected: bool)
    ensures
        ({
            let told = |setting: Setting| setting_line(setting, selected, config).last().0;
            &&& told(Setting::Theme) == config.theme.name()@
            &&& told(Setting::Accent) == config.accent.name()@
            &&& config.jellyfin.host.len() > 0 ==> told(Setting::Jellyfin) == config.jellyfin.host
            &&& config.radarr_host.len() > 0 ==> told(Setting::Radarr) == config.radarr_host
            &&& config.sonarr_host.len() > 0 ==> told(Setting::Sonarr) == config.sonarr_host
            &&& config.jellyfin.host.len() == 0 ==> told(Setting::Jellyfin) == "not configured"@
            &&& config.radarr_host.len() == 0 ==> told(Setting::Radarr) == "not configured"@
            &&& config.sonarr_host.len() == 0 ==> told(Setting::Sonarr) == "not configured"@
        }),
        forall|setting: Setting|
            #![trigger setting_line(setting, selected, config)]
            setting_line(setting, selected, config)[0].0 == if selected {
                "  > "@
            } else {
                "    "@
            },
{
}

} // verus!
