//! One line of the screen as plain text in tones; the program maps each tone
//! to a style of the current theme.

use vstd::prelude::*;

use crate::ui::theme::Accent;

verus! {

/// How a piece of text is painted.
#[derive(Debug, Clone, Copy, PartialEq, Eq, Structural)]
pub enum Tone {
    /// Unstyled.
    Raw,
    /// The plain foreground.
    Fg,
    Dim,
    Accent,
    AccentColor,
    AccentBright,
    /// The highlighted row.
    AccentBold,
    Error,
    /// A field label.
    Selected,
    /// The foreground on an accent background.
    Badge,
    /// A tab that is not open.
    Tab,
    /// A sample of an accent.
    Swatch(Accent),
}

/// A piece of text in one tone.
#[derive(Debug)]
pub struct Span {
    pub text: String,
    pub tone: Tone,
}

impl View for Span {
    type V = (Seq<char>, Tone);

    open spec fn view(&self) -> (Seq<char>, Tone) {
        (self.text@, self.tone)
    }
}

/// A line as texts and tones.
pub open spec fn shown(spans: Seq<Span>) -> Seq<(Seq<char>, Tone)> {
    spans.map_values(|s: Span| s@)
}

/// A line as values.
pub type LineModel = Seq<(Seq<char>, Tone)>;

/// Lines as texts and tones.
pub open spec fn shown_lines(lines: Seq<Vec<Span>>) -> Seq<LineModel> {
    lines.map_values(|line: Vec<Span>| shown(line@))
}

/// A span of the given text.
pub fn span(text: String, tone: Tone) -> (s: Span)
    ensures
        s@ == (text@, tone),
{
    Span { text, tone }
}

} // verus!
