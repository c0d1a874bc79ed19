//! Rows that the Sonarr and the Radarr screens share.

use vstd::prelude::*;
use vstd::string::*;

use crate::arr::display::{
    format_size, previously_grabbed, quality_name, quality_text, records, release_line2,
    release_parts, size_text,
};
use crate::arr::models::{
    HistoryRecord, Language, MediaInfo, QualityProfile, QualityWrapper, Release, RootFolder,
};
use crate::text::{join, joined, opt_text, text_or, texts};
use crate::ui::line::{shown, span, Span, Tone};
use crate::ui::rows::{
    bullet_line, bulleted, dashed, detail_tone, gutter, gutter_span, labelled, or_dash, pair,
    shown_title, Entry, EntryModel,
};
use crate::ui::text::{truncate, truncated};

verus! {

/// Whether a release was grabbed before.
pub open spec fn grabbed(history: Seq<HistoryRecord>, release: Release) -> bool {
    exists|i: int| 0 <= i < history.len() && records(#[trigger] history[i], release)
}

/// One row of the search results: title, then the metadata line in its tone
/// with its rejection and "grabbed before" markers.
pub open spec fn release_row(
    release: Release,
    history: Seq<HistoryRecord>,
    selected: bool,
    tone: Tone,
    width: nat,
) -> EntryModel {
    let line = seq![
        gutter_span(selected),
        (
            truncated(
                joined(release_parts(release), " • "@),
                if width > 4 {
                    (width - 4) as nat
                } else {
                    0
                },
            ),
            tone,
        ),
    ];
    let flagged = if release.rejected {
        line.push((" !"@, Tone::Error))
    } else {
        line
    };
    EntryModel {
        title: seq![
            gutter_span(selected),
            (
                truncated(shown_title(release.title), width),
                if selected {
                    Tone::AccentBold
                } else {
                    Tone::Fg
                },
            ),
        ],
        right: Seq::empty(),
        below: seq![
            if grabbed(history, release) {
                flagged.push((" ✓"@, Tone::AccentBright))
            } else {
                flagged
            },
        ],
    }
}

pub fn release_entry(
    release: &Release,
    history: &Vec<HistoryRecord>,
    selected: bool,
    tone: Tone,
    width: usize,
) -> (entry: Entry)
    ensures
        entry@ == release_row(*release, history@, selected, tone, width as nat),
{
    let title_tone: Tone = if selected {
        Tone::AccentBold
    } else {
        Tone::Fg
    };
    let title: String = text_or(&release.title, "(untitled)");
    let text: String = release_line2(release);
    let mut line: Vec<Span> = pair(
        gutter(selected),
        span(truncate(text.as_str(), width.saturating_sub(4)), tone),
    );
    let ghost plain = shown(line@);
    if release.rejected {
        line.push(span(" !".to_owned(), Tone::Error));
        assert(shown(line@) =~= plain.push((" !"@, Tone::Error)));
    }
    let ghost flagged = shown(line@);
    if previously_grabbed(history.as_slice(), release) {
        line.push(span(" ✓".to_owned(), Tone::AccentBright));
        assert(shown(line@) =~= flagged.push((" ✓"@, Tone::AccentBright)));
    }
    let mut below: Vec<Vec<Span>> = Vec::new();
    below.push(line);
    let entry = Entry {
        title: pair(gutter(selected), span(truncate(title.as_str(), width), title_tone)),
        right: Vec::new(),
        below,
    };
    assert(entry@.right =~= Seq::empty());
    assert(entry@.below =~= release_row(*release, history@, selected, tone, width as nat).below);
    entry
}

/// One row of the lookup results: title, meta line and one line of the
/// overview.
pub open spec fn found_row(
    title: Seq<char>,
    meta: Seq<char>,
    overview: Option<Seq<char>>,
    selected: bool,
    width: nat,
) -> EntryModel {
    let overview = match overview {
        Some(overview) => overview,
        None => Seq::empty(),
    };
    EntryModel {
        title: seq![
            gutter_span(selected),
            (
                truncated(title, width),
                if selected {
                    Tone::AccentBold
                } else {
                    Tone::Fg
                },
            ),
        ],
        right: Seq::empty(),
        below: seq![
            seq![gutter_span(selected), (truncated(meta, width), detail_tone(selected))],
            seq![gutter_span(selected), (truncated(overview, width), Tone::Dim)],
        ],
    }
}

pub fn found_entry(
    title: &str,
    meta: &str,
    overview: &Option<String>,
    selected: bool,
    width: usize,
) -> (entry: Entry)
    ensures
        entry@ == found_row(title@, meta@, opt_text(*overview), selected, width as nat),
{
    let tone: Tone = if selected {
        Tone::AccentBold
    } else {
        Tone::Fg
    };
    let below_tone: Tone = if selected {
        Tone::AccentColor
    } else {
        Tone::Dim
    };
    let told: String = text_or(overview, "");
    proof {
        reveal_strlit("");
        assert(""@ =~= Seq::<char>::empty());
    }
    let mut below: Vec<Vec<Span>> = Vec::new();
    below.push(pair(gutter(selected), span(truncate(meta, width), below_tone)));
    below.push(pair(gutter(selected), span(truncate(told.as_str(), width), Tone::Dim)));
    let entry = Entry {
        title: pair(gutter(selected), span(truncate(title, width), tone)),
        right: Vec::new(),
        below,
    };
    assert(entry@.right =~= Seq::empty());
    assert(entry@.below =~= found_row(
        title@,
        meta@,
        opt_text(*overview),
        selected,
        width as nat,
    ).below);
    entry
}

/// The names in a list of languages, in order.
pub open spec fn language_names(languages: Seq<Language>) -> Seq<Seq<char>>
    decreases languages.len(),
{
    if languages.len() == 0 {
        Seq::empty()
    } else {
        let before = language_names(languages.drop_last());
        match languages.last().name {
            Some(name) => before.push(name@),
            None => before,
        }
    }
}

/// The languages of a file: those listed, else the single one, else a dash.
pub open spec fn languages_text(languages: Seq<Language>, single: Option<Language>) -> Seq<char> {
    if language_names(languages).len() > 0 {
        joined(language_names(languages), ", "@)
    } else {
        match single {
            Some(language) => dashed(opt_text(language.name)),
            None => "-"@,
        }
    }
}

/// A channel count as it is shown.
pub open spec fn channels_text(channels: Option<String>) -> Option<Seq<char>> {
    match channels {
        Some(channels) => Some(channels@ + " ch"@),
        None => None,
    }
}

/// The video, audio and subtitle rows of a media file.
pub open spec fn media_rows(info: MediaInfo) -> Seq<(&'static str, Seq<char>)> {
    seq![
        (
            "Video",
            bulleted(
                seq![
                    opt_text(info.video_codec),
                    opt_text(info.resolution),
                    opt_text(info.video_dynamic_range),
                ],
            ),
        ),
        (
            "Audio",
            bulleted(
                seq![
                    opt_text(info.audio_codec),
                    channels_text(info.audio_channels),
                    opt_text(info.audio_languages),
                ],
            ),
        ),
        (
            "Subtitles",
            if info.subtitles is Some && info.subtitles->0@.len() > 0 {
                info.subtitles->0@
            } else {
                "-"@
            },
        ),
    ]
}

/// The rows every file has: path, size, quality, language.
pub open spec fn base_rows(
    path: Option<String>,
    size: i64,
    quality: Option<QualityWrapper>,
    languages: Seq<Language>,
    language: Option<Language>,
    path_width: nat,
) -> Seq<(&'static str, Seq<char>)> {
    seq![
        (
            "Path",
            match path {
                Some(path) => truncated(path@, path_width),
                None => "-"@,
            },
        ),
        ("Size", size_text(size as int)),
        ("Quality", dashed(quality_text(quality))),
        ("Language", languages_text(languages, language)),
    ]
}

/// The languages of a file.
pub fn language_line(languages: &Vec<Language>, single: &Option<Language>) -> (text: String)
    ensures
        text@ == languages_text(languages@, *single),
{
    let mut names: Vec<String> = Vec::new();
    let mut i: usize = 0;
    assert(texts(names@) =~= language_names(languages@.take(0)));
    while i < languages.len()
        invariant
            i <= languages@.len(),
            texts(names@) == language_names(languages@.take(i as int)),
        decreases languages@.len() - i,
    {
        assert(languages@.take(i + 1).drop_last() =~= languages@.take(i as int));
        let ghost before = names@;
        if let Some(name) = &languages[i].name {
            names.push(name.clone());
            assert(texts(names@) =~= texts(before).push(name@));
        }
        i += 1;
    }
    assert(languages@.take(i as int) =~= languages@);
    if names.len() > 0 {
        join(&names, ", ")
    } else {
        match single {
            Some(language) => or_dash(language.name.clone()),
            None => "-".to_owned(),
        }
    }
}

/// Appends the rows every file has.
pub fn push_base_rows(
    rows: &mut Vec<(&'static str, String)>,
    path: &Option<String>,
    size: i64,
    quality: &Option<QualityWrapper>,
    languages: &Vec<Language>,
    language: &Option<Language>,
    path_width: usize,
)
    ensures
        labelled(final(rows)@) == labelled(old(rows)@) + base_rows(
            *path,
            size,
            *quality,
            languages@,
            *language,
            path_width as nat,
        ),
{
    let ghost before = rows@;
    rows.push(
        (
            "Path",
            match path {
                Some(path) => truncate(path.as_str(), path_width),
                None => "-".to_owned(),
            },
        ),
    );
    rows.push(("Size", format_size(size)));
    rows.push(("Quality", or_dash(quality_name(quality))));
    rows.push(("Language", language_line(languages, language)));
    assert(labelled(rows@) =~= labelled(before) + base_rows(
        *path,
        size,
        *quality,
        languages@,
        *language,
        path_width as nat,
    ));
}

/// Appends the video, audio and subtitle rows.
pub fn push_media_rows(rows: &mut Vec<(&'static str, String)>, info: &MediaInfo)
    ensures
        labelled(final(rows)@) == labelled(old(rows)@) + media_rows(*info),
{
    let ghost before = rows@;
    rows.push(
        (
            "Video",
            bullet_line(
                info.video_codec.clone(),
                info.resolution.clone(),
                info.video_dynamic_range.clone(),
            ),
        ),
    );
    let channels: Option<String> = match &info.audio_channels {
        Some(channels) => Some(channels.clone().concat(" ch")),
        None => None,
    };
    rows.push(
        ("Audio", bullet_line(info.audio_codec.clone(), channels, info.audio_languages.clone())),
    );
    let subtitles: String = match &info.subtitles {
        Some(subtitles) => if subtitles.as_str().is_empty() {
            "-".to_owned()
        } else {
            subtitles.clone()
        },
        None => "-".to_owned(),
    };
    rows.push(("Subtitles", subtitles));
    assert(labelled(rows@) =~= labelled(before) + media_rows(*info));
}

/// The paths of root folders.
pub fn path_labels(folders: &Vec<RootFolder>) -> (labels: Vec<String>)
    ensures
        texts(labels@) == folders@.map_values(|f: RootFolder| f.path@),
{
    let mut labels: Vec<String> = Vec::new();
    let mut i: usize = 0;
    while i < folders.len()
        invariant
            i <= folders@.len() && labels@.len() == i,
            forall|k: int| 0 <= k < i ==> (#[trigger] labels@[k])@ == folders@[k].path@,
        decreases folders@.len() - i,
    {
        labels.push(folders[i].path.clone());
        i += 1;
    }
    assert(texts(labels@) =~= folders@.map_values(|f: RootFolder| f.path@));
    labels
}

/// The names of quality profiles.
pub fn profile_labels(profiles: &Vec<QualityProfile>) -> (labels: Vec<String>)
    ensures
        texts(labels@) == profiles@.map_values(|p: QualityProfile| p.name@),
{
    let mut labels: Vec<String> = Vec::new();
    let mut i: usize = 0;
    while i < profiles.len()
        invariant
            i <= profiles@.len() && labels@.len() == i,
            forall|k: int| 0 <= k < i ==> (#[trigger] labels@[k])@ == profiles@[k].name@,
        decreases profiles@.len() - i,
    {
        labels.push(profiles[i].name.clone());
        i += 1;
    }
    assert(texts(labels@) =~= profiles@.map_values(
        |p: QualityProfile| p.name@,
    ));
    labels
}

/// The titles of releases.
pub open spec fn release_titles(releases: Seq<Release>) -> Seq<Option<String>> {
    Seq::new(releases.len(), |i: int| releases[i].title)
}

/// A release that the history holds is marked as grabbed, and no other is.
pub proof fn law_grabbed_releases_are_marked(
    release: Release,
    history: Seq<HistoryRecord>,
    selected: bool,
    tone: Tone,
    width: nat,
)
    requires
        tone != Tone::AccentBright,
    ensures
        ({
            let line = release_row(release, history, selected, tone, width).below[0];
            (line.len() > 2 && line.last() == (" ✓"@, Tone::AccentBright)) <==> exists|i: int|
                0 <= i < history.len() && records(#[trigger] history[i], release)
        }),
{
}

} // verus!
