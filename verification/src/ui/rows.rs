//! Rows of lists and tables, as texts in tones.

use vstd::prelude::*;
use vstd::string::*;

use crate::text::{
    chars_of, join, joined, opt_text, pad_right, padded_right, string_between, texts, trim_end,
    trimmed_end,
};
use crate::ui::line::{shown, shown_lines, span, LineModel, Span, Tone};
use crate::ui::list::{entries_per_page, first_visible, smaller};
use crate::ui::text::truncated;

verus! {

/// The bar left of the highlighted row, or the blank left of another.
pub open spec fn gutter_span(selected: bool) -> (Seq<char>, Tone) {
    if selected {
        (" │ "@, Tone::AccentBright)
    } else {
        ("   "@, Tone::Raw)
    }
}

pub fn gutter(selected: bool) -> (s: Span)
    ensures
        s@ == gutter_span(selected),
{
    if selected {
        span(" │ ".to_owned(), Tone::AccentBright)
    } else {
        span("   ".to_owned(), Tone::Raw)
    }
}

/// The tone of a row's second line.
pub open spec fn detail_tone(selected: bool) -> Tone {
    if selected {
        Tone::AccentColor
    } else {
        Tone::Dim
    }
}

/// A list entry: its title line, what stands at the right of that, and the
/// lines below.
pub struct Entry {
    pub title: Vec<Span>,
    pub right: Vec<Span>,
    pub below: Vec<Vec<Span>>,
}

/// The title of a movie, or a stand-in.
pub open spec fn shown_title(title: Option<String>) -> Seq<char> {
    match title {
        Some(title) => title@,
        None => "(untitled)"@,
    }
}

/// A list entry as texts and tones.
pub struct EntryModel {
    pub title: LineModel,
    pub right: LineModel,
    pub below: Seq<LineModel>,
}

impl View for Entry {
    type V = EntryModel;

    open spec fn view(&self) -> EntryModel {
        EntryModel {
            title: shown(self.title@),
            right: shown(self.right@),
            below: shown_lines(self.below@),
        }
    }
}

/// A line of two spans.
pub fn pair(a: Span, b: Span) -> (line: Vec<Span>)
    ensures
        shown(line@) == seq![a@, b@],
{
    let mut line: Vec<Span> = Vec::new();
    line.push(a);
    line.push(b);
    assert(shown(line@) =~= seq![a@, b@]);
    line
}

/// A text, or a dash where there is none.
pub open spec fn dashed(text: Option<Seq<char>>) -> Seq<char> {
    match text {
        Some(t) => t,
        None => "-"@,
    }
}

/// The parts that are there, in order.
pub open spec fn present(parts: Seq<Option<Seq<char>>>) -> Seq<Seq<char>>
    decreases parts.len(),
{
    if parts.len() == 0 {
        Seq::empty()
    } else {
        match parts.last() {
            Some(part) => present(parts.drop_last()).push(part),
            None => present(parts.drop_last()),
        }
    }
}

/// The parts that are there with bullets between, or a dash for none.
pub open spec fn bulleted(parts: Seq<Option<Seq<char>>>) -> Seq<char> {
    if present(parts).len() == 0 {
        "-"@
    } else {
        joined(present(parts), " • "@)
    }
}

/// Labelled rows as values.
pub open spec fn labelled(rows: Seq<(&'static str, String)>) -> Seq<(&'static str, Seq<char>)> {
    rows.map_values(|row: (&'static str, String)| (row.0, row.1@))
}

/// A copy of a text, or a dash.
pub fn or_dash(text: Option<String>) -> (r: String)
    ensures
        r@ == dashed(opt_text(text)),
{
    match text {
        Some(t) => t,
        None => "-".to_owned(),
    }
}

/// Bullets between the parts that are there.
pub fn bullet_line(a: Option<String>, b: Option<String>, c: Option<String>) -> (text: String)
    ensures
        text@ == bulleted(seq![opt_text(a), opt_text(b), opt_text(c)]),
{
    let ghost all = seq![opt_text(a), opt_text(b), opt_text(c)];
    let mut parts: Vec<String> = Vec::new();
    proof {
        reveal_with_fuel(present, 4);
        assert(all.drop_last() =~= seq![opt_text(a), opt_text(b)]);
        assert(all.drop_last().drop_last() =~= seq![opt_text(a)]);
        assert(all.drop_last().drop_last().drop_last() =~= Seq::empty());
    }
    if let Some(part) = a {
        parts.push(part);
    }
    if let Some(part) = b {
        parts.push(part);
    }
    if let Some(part) = c {
        parts.push(part);
    }
    assert(texts(parts@) =~= present(all));
    if parts.len() == 0 {
        "-".to_owned()
    } else {
        join(&parts, " • ")
    }
}

/// List entries as texts and tones.
pub open spec fn entry_models(entries: Seq<Entry>) -> Seq<EntryModel> {
    entries.map_values(|e: Entry| e@)
}

/// One more entry of those that are wanted.
pub proof fn lemma_entry_added(before: Seq<Entry>, entry: Entry, want: Seq<EntryModel>)
    requires
        before.len() < want.len(),
        entry_models(before) == want.take(before.len() as int),
        want[before.len() as int] == entry@,
    ensures
        entry_models(before.push(entry)) == want.take((before.len() + 1) as int),
{
    assert(entry_models(before.push(entry)) =~= want.take((before.len() + 1) as int));
}

/// One more line of those that are wanted.
pub proof fn lemma_line_added(before: Seq<Vec<Span>>, line: Vec<Span>, want: Seq<LineModel>)
    requires
        before.len() < want.len(),
        shown_lines(before) == want.take(before.len() as int),
        want[before.len() as int] == shown(line@),
    ensures
        shown_lines(before.push(line)) == want.take((before.len() + 1) as int),
{
    assert(shown_lines(before.push(line)) =~= want.take((before.len() + 1) as int));
}

/// The first row of a page and the row behind its last.
pub open spec fn page_bounds(cursor: usize, len: nat, height: u16, rows: u16) -> (int, int) {
    let per_page = entries_per_page(height, rows) as int;
    let first = first_visible(cursor as int, len as int, per_page);
    (first, smaller(first + per_page, len as int))
}

/// A line of one span.
pub fn single(text: String, tone: Tone) -> (line: Vec<Span>)
    ensures
        shown(line@) == seq![(text@, tone)],
{
    let mut line: Vec<Span> = Vec::new();
    line.push(span(text, tone));
    assert(shown(line@) =~= seq![(text@, tone)]);
    line
}

/// Put a line behind the others.
pub fn push_line(lines: &mut Vec<Vec<Span>>, line: Vec<Span>)
    ensures
        shown_lines(final(lines)@) == shown_lines(old(lines)@).push(shown(line@)),
{
    lines.push(line);
    assert(shown_lines(lines@) =~= shown_lines(old(lines)@).push(shown(line@)));
}

/// Put an empty line behind the others.
pub fn push_blank(lines: &mut Vec<Vec<Span>>)
    ensures
        shown_lines(final(lines)@) == shown_lines(old(lines)@).push(Seq::empty()),
{
    let line: Vec<Span> = Vec::new();
    assert(shown(line@) =~= Seq::empty());
    push_line(lines, line);
}

/// A text set in from the edge.
pub open spec fn indented(text: Seq<char>) -> Seq<char> {
    "  "@ + text
}

pub fn indent(text: &str) -> (r: String)
    ensures
        r@ == indented(text@),
{
    "  ".to_owned().concat(text)
}

/// Texts as plain lines set in from the edge.
pub open spec fn indented_lines(lines: Seq<Seq<char>>) -> Seq<LineModel> {
    lines.map_values(|text: Seq<char>| seq![(indented(text), Tone::Fg)])
}

/// Put the first texts, set in from the edge, behind the other lines.
pub fn push_indented(lines: &mut Vec<Vec<Span>>, from: &Vec<String>, count: usize)
    requires
        count <= from@.len(),
    ensures
        shown_lines(final(lines)@) == shown_lines(old(lines)@) + indented_lines(
            texts(from@).take(count as int),
        ),
{
    let mut i: usize = 0;
    let ghost all = indented_lines(texts(from@));
    assert(shown_lines(lines@) =~= shown_lines(old(lines)@) + all.take(0));
    while i < count
        invariant
            i <= count <= from@.len(),
            all == indented_lines(texts(from@)),
            shown_lines(lines@) == shown_lines(old(lines)@) + all.take(i as int),
        decreases count - i,
    {
        push_line(lines, single(indent(from[i].as_str()), Tone::Fg));
        assert(shown_lines(lines@) =~= shown_lines(old(lines)@) + all.take(i + 1));
        i += 1;
    }
    assert(all.take(count as int) =~= indented_lines(texts(from@).take(count as int)));
}

/// Labelled rows as lines: the label in its column, then the value.
pub open spec fn labelled_lines(rows: Seq<(&'static str, Seq<char>)>) -> Seq<LineModel> {
    rows.map_values(
        |row: (&'static str, Seq<char>)|
            seq![
                (indented(padded_right(row.0@, 11)), Tone::Selected),
                (" "@ + row.1, Tone::Fg),
            ],
    )
}

/// Put the first labelled rows behind the other lines.
pub fn push_labelled(
    lines: &mut Vec<Vec<Span>>,
    rows: &Vec<(&'static str, String)>,
    count: usize,
)
    requires
        count <= rows@.len(),
    ensures
        shown_lines(final(lines)@) == shown_lines(old(lines)@) + labelled_lines(
            labelled(rows@).take(count as int),
        ),
{
    let mut i: usize = 0;
    let ghost all = labelled_lines(labelled(rows@));
    assert(shown_lines(lines@) =~= shown_lines(old(lines)@) + all.take(0));
    while i < count
        invariant
            i <= count <= rows@.len(),
            all == labelled_lines(labelled(rows@)),
            shown_lines(lines@) == shown_lines(old(lines)@) + all.take(i as int),
        decreases count - i,
    {
        let label: String = indent(pad_right(rows[i].0, 11).as_str());
        let value: String = " ".to_owned().concat(rows[i].1.as_str());
        push_line(lines, pair(span(label, Tone::Selected), span(value, Tone::Fg)));
        assert(all[i as int] == seq![
            (indented(padded_right(rows@[i as int].0@, 11)), Tone::Selected),
            (" "@ + rows@[i as int].1@, Tone::Fg),
        ]);
        assert(shown_lines(lines@) =~= shown_lines(old(lines)@) + all.take(i + 1));
        i += 1;
    }
    assert(all.take(count as int) =~= labelled_lines(labelled(rows@).take(count as int)));
}

/// The characters of an overview that a header shows at most.
pub const OVERVIEW_MAX_CHARS: usize = 600;

/// The rows that a header leaves for the list below it.
pub const MIN_LIST_ROWS: u16 = 4;

/// An overview cut to what a header shows at most.
pub open spec fn clipped(overview: Seq<char>) -> Seq<char> {
    if overview.len() > OVERVIEW_MAX_CHARS {
        trimmed_end(overview.take(OVERVIEW_MAX_CHARS as int)).push('…')
    } else {
        overview
    }
}

/// An overview cut to what a header shows at most.
pub fn clip(overview: &str) -> (text: String)
    ensures
        text@ == clipped(overview@),
{
    let chars: Vec<char> = chars_of(overview);
    if chars.len() > OVERVIEW_MAX_CHARS {
        let start: String = string_between(&chars, 0, OVERVIEW_MAX_CHARS);
        assert(start@ =~= overview@.take(OVERVIEW_MAX_CHARS as int));
        let mut text: String = trim_end(start.as_str());
        text.push('…');
        text
    } else {
        overview.to_owned()
    }
}

/// A header above a list: the title, the line below it where there is one, a
/// blank, as much of the overview as there is room for, with a note where
/// something is left out, and another blank.
pub open spec fn header(
    title: Seq<char>,
    meta: Seq<char>,
    overview: Seq<Seq<char>>,
    room: nat,
    note: Seq<char>,
) -> Seq<LineModel> {
    let head: Seq<LineModel> = seq![seq![(indented(title), Tone::AccentBold)]];
    let below = if meta.len() == 0 {
        head
    } else {
        head.push(seq![(indented(meta), Tone::Dim)])
    };
    let spaced = below.push(Seq::empty());
    let told = if overview.len() > room {
        (spaced + indented_lines(overview.take(room as int))).push(seq![(note, Tone::Dim)])
    } else {
        spaced + indented_lines(overview)
    };
    told.push(Seq::empty())
}

/// A header above a list.
pub fn header_lines(
    title: &str,
    meta: &str,
    overview: &Vec<String>,
    room: usize,
    note: &'static str,
) -> (lines: Vec<Vec<Span>>)
    ensures
        shown_lines(lines@) == header(title@, meta@, texts(overview@), room as nat, note@),
{
    let mut lines: Vec<Vec<Span>> = Vec::new();
    assert(shown_lines(lines@) =~= Seq::empty());
    push_line(&mut lines, single(indent(title), Tone::AccentBold));
    assert(shown_lines(lines@) =~= seq![seq![(indented(title@), Tone::AccentBold)]]);
    if !meta.is_empty() {
        push_line(&mut lines, single(indent(meta), Tone::Dim));
    }
    push_blank(&mut lines);
    if overview.len() > room {
        push_indented(&mut lines, overview, room);
        push_line(&mut lines, single(note.to_owned(), Tone::Dim));
    } else {
        push_indented(&mut lines, overview, overview.len());
        assert(texts(overview@).take(overview@.len() as int) =~= texts(overview@));
    }
    push_blank(&mut lines);
    lines
}

/// The rows that a header leaves of a height.
pub open spec fn rows_below(lines: nat, height: u16) -> u16 {
    if lines < height {
        (height - lines) as u16
    } else {
        0
    }
}

pub fn height_below(lines: usize, height: u16) -> (rows: u16)
    ensures
        rows == rows_below(lines as nat, height),
{
    if lines < height as usize {
        height - lines as u16
    } else {
        0
    }
}

/// The columns of text that a width leaves inside its margins.
pub open spec fn inner_width(width: u16, margin: u16) -> nat {
    if width > margin {
        (width - margin) as nat
    } else {
        0
    }
}

pub fn width_within(width: u16, margin: u16) -> (columns: usize)
    ensures
        columns == inner_width(width, margin),
{
    width.saturating_sub(margin) as usize
}

/// Rows that show a list from an entry on: each one the title of its own entry,
/// and the one at the cursor, which is among them, highlighted.
pub open spec fn lists_from(
    rows: Seq<EntryModel>,
    titles: Seq<Option<String>>,
    room: nat,
    cursor: usize,
    first: int,
) -> bool {
    &&& 0 <= first <= cursor < first + rows.len() <= titles.len()
    &&& forall|k: int|
        0 <= k < rows.len() ==> {
            &&& (#[trigger] rows[k]).title.len() == 2
            &&& rows[k].title[1].0 == truncated(shown_title(titles[first + k]), room)
            &&& rows[k].title[1].1 == Tone::AccentBold <==> first + k == cursor
        }
}

/// The page that is drawn lies in the list and holds the row under the cursor.
pub proof fn law_pages_hold_the_cursor(cursor: usize, len: nat, height: u16, rows: u16)
    requires
        cursor < len,
    ensures
        ({
            let (first, end) = page_bounds(cursor, len, height, rows);
            &&& 0 <= first <= cursor < end <= len
            &&& rows > 0 && end - first > 1 ==> (end - first) * rows <= height
        }),
{
    let (first, end) = page_bounds(cursor, len, height, rows);
    if rows > 0 && end - first > 1 {
        let per = height as int / rows as int;
        assert(end - first <= per);
        assert((end - first) * rows <= height) by (nonlinear_arith)
            requires
                end - first <= per,
                per == height as int / rows as int,
                rows > 0,
        ;
    }
}

/// What is missing leaves no gap: the parts that are there stand in order, and a
/// dash stands for none.
pub proof fn law_missing_parts_leave_no_gap(a: Option<Seq<char>>, b: Option<Seq<char>>)
    ensures
        a is Some && b is Some ==> present(seq![a, b]) == seq![a->0, b->0],
        a is Some && b is None ==> present(seq![a, b]) == seq![a->0],
        a is None && b is Some ==> present(seq![a, b]) == seq![b->0],
        a is None && b is None ==> present(seq![a, b]).len() == 0 && bulleted(seq![a, b]) == "-"@,
{
    reveal_with_fuel(present, 3);
    assert(seq![a, b].drop_last() =~= seq![a]);
    assert(seq![a].drop_last() =~= Seq::<Option<Seq<char>>>::empty());
}

} // verus!
