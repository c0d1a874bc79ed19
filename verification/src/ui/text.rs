//! Fitting text to the screen: shortening, wrapping and measuring.

use unicode_width::UnicodeWidthStr;
use vstd::prelude::*;
use vstd::string::*;

use crate::text::{chars_of, is_whitespace, string_between, texts, whitespace};

verus! {

/// How many columns a text takes on a terminal, as `unicode_width` counts
/// them.
pub uninterp spec fn columns(text: Seq<char>) -> nat;

/// `UnicodeWidthStr::width`: named, since it depends on the text alone and the
/// width tables behind it are the crate's.
#[verifier::external_body]
pub(crate) fn display_width(text: &str) -> (width: usize)
    ensures
        width == columns(text@),
{
    UnicodeWidthStr::width(text)
}

/// A text cut to at most `max` characters, the last of them an ellipsis where
/// something was cut off.
pub open spec fn truncated(text: Seq<char>, max: nat) -> Seq<char> {
    if text.len() <= max {
        text
    } else if max == 0 {
        Seq::empty()
    } else {
        text.take(max - 1).push('…')
    }
}

/// Cut a text to at most `max` characters.
pub fn truncate(text: &str, max: usize) -> (r: String)
    ensures
        r@ == truncated(text@, max as nat),
        r@.len() <= max || r@ == text@,
{
    let chars: Vec<char> = chars_of(text);
    if chars.len() <= max {
        text.to_owned()
    } else if max == 0 {
        let r = String::new();
        assert(r@ =~= truncated(text@, 0));
        r
    } else {
        let mut r: String = string_between(&chars, 0, max - 1);
        r.push('…');
        assert(r@ =~= truncated(text@, max as nat));
        r
    }
}

/// The words of a text: its longest runs without white space, in order.
pub open spec fn spaced_words(text: Seq<char>) -> Seq<Seq<char>>
    decreases text.len(),
{
    if text.len() == 0 {
        Seq::empty()
    } else {
        let before = spaced_words(text.drop_last());
        if whitespace(text.last()) {
            before
        } else if ends_in_word(text.drop_last()) {
            before.update(before.len() - 1, before.last().push(text.last()))
        } else {
            before.push(seq![text.last()])
        }
    }
}

/// Whether a text ends inside a word.
pub open spec fn ends_in_word(text: Seq<char>) -> bool {
    text.len() > 0 && !whitespace(text.last())
}

/// Words set in lines: each word goes on the current line where it fits with a
/// space before it, and starts the next line otherwise.
pub open spec fn set_lines(words: Seq<Seq<char>>, width: nat) -> Seq<Seq<char>>
    decreases words.len(),
{
    if words.len() == 0 {
        Seq::empty()
    } else {
        let lines = set_lines(words.drop_last(), width);
        let word = words.last();
        if lines.len() > 0 && lines.last().len() + 1 + word.len() <= width {
            lines.update(lines.len() - 1, lines.last().push(' ') + word)
        } else {
            lines.push(word)
        }
    }
}

proof fn lemma_open_word(text: Seq<char>)
    requires
        ends_in_word(text),
    ensures
        spaced_words(text).len() > 0,
    decreases text.len(),
{
    if ends_in_word(text.drop_last()) {
        lemma_open_word(text.drop_last());
    }
}

/// The words of a text.
fn split_words(text: &str) -> (words: Vec<Vec<char>>)
    ensures
        words@.map_values(|w: Vec<char>| w@) == spaced_words(text@),
{
    let mut words: Vec<Vec<char>> = Vec::new();
    let mut open = false;
    let chars: Vec<char> = chars_of(text);
    let mut i: usize = 0;
    assert(words@.map_values(|w: Vec<char>| w@) =~= spaced_words(text@.take(0)));
    while i < chars.len()
        invariant
            i <= chars@.len(),
            chars@ == text@,
            words@.map_values(|w: Vec<char>| w@) == spaced_words(text@.take(i as int)),
            open == ends_in_word(text@.take(i as int)),
        decreases chars@.len() - i,
    {
        let c: char = chars[i];
        let ghost done = text@.take(i as int);
        let ghost next = text@.take(i + 1);
        assert(next.drop_last() =~= done);
        assert(next.last() == c);
        let ghost before = words@;
        if is_whitespace(c) {
            open = false;
        } else if open {
            proof {
                lemma_open_word(done);
            }
            let n: usize = words.len() - 1;
            words[n].push(c);
            open = true;
        } else {
            let mut word: Vec<char> = Vec::new();
            word.push(c);
            assert(word@ =~= seq![c]);
            words.push(word);
            open = true;
        }
        assert(words@.map_values(|w: Vec<char>| w@) =~= spaced_words(next));
        i += 1;
    }
    assert(text@.take(i as int) =~= text@);
    words
}

/// A text as lines of at most `width` characters; a longer word has a line of
/// its own.
pub fn wrap_text(text: &str, width: usize) -> (lines: Vec<String>)
    ensures
        texts(lines@) == set_lines(spaced_words(text@), width as nat),
{
    let words: Vec<Vec<char>> = split_words(text);
    let ghost all = spaced_words(text@);
    let mut lines: Vec<String> = Vec::new();
    // How many characters the last line holds.
    let mut used: usize = 0;
    let mut i: usize = 0;
    assert(texts(lines@) =~= set_lines(all.take(0), width as nat));
    while i < words.len()
        invariant
            i <= words@.len(),
            all == words@.map_values(|w: Vec<char>| w@),
            texts(lines@) == set_lines(all.take(i as int), width as nat),
            lines@.len() > 0 ==> used == lines@.last()@.len(),
        decreases words@.len() - i,
    {
        assert(all.take(i + 1).drop_last() =~= all.take(i as int));
        assert(all.take(i + 1).last() == words@[i as int]@);
        let word: String = string_between(&words[i], 0, words[i].len());
        assert(word@ =~= words@[i as int]@);
        let size: usize = words[i].len();
        let ghost before = texts(lines@);
        let n: usize = lines.len();
        if n > 0 && used < width && size <= width - used - 1 {
            let mut line: String = String::new();
            std::mem::swap(&mut line, &mut lines[n - 1]);
            line.push(' ');
            line.append(word.as_str());
            lines[n - 1] = line;
            used = used + 1 + size;
            assert(texts(lines@) =~= before.update(n - 1, before.last().push(' ') + word@));
        } else {
            lines.push(word);
            used = size;
            assert(texts(lines@) =~= before.push(word@));
        }
        i += 1;
    }
    assert(all.take(i as int) =~= all);
    lines
}

/// A faint rule across a gap of this many columns, with a blank at either end.
pub open spec fn leader(gap: nat) -> Seq<char> {
    Seq::new(
        gap,
        |i: int|
            if i == 0 || i == gap - 1 {
                ' '
            } else {
                '─'
            },
    )
}

pub fn leader_line(gap: usize) -> (line: String)
    ensures
        line@ == leader(gap as nat),
{
    let mut line = String::new();
    let mut i: usize = 0;
    while i < gap
        invariant
            i <= gap,
            line@ == leader(gap as nat).take(i as int),
        decreases gap - i,
    {
        line.push(
            if i == 0 || i == gap - 1 {
                ' '
            } else {
                '─'
            },
        );
        assert(line@ =~= leader(gap as nat).take(i + 1));
        i += 1;
    }
    assert(line@ =~= leader(gap as nat));
    line
}

/// A text that fits stays as it is; one that does not is cut to the room with a
/// mark at its end.
pub proof fn law_cut_texts_fit_and_say_so(text: Seq<char>, max: nat)
    ensures
        truncated(text, max).len() <= max,
        text.len() <= max ==> truncated(text, max) == text,
        text.len() > max && max > 0 ==> truncated(text, max).len() == max && truncated(
            text,
            max,
        ).last() == '…' && truncated(text, max).drop_last() == text.take(max - 1),
{
    if text.len() > max && max > 0 {
        assert(truncated(text, max).drop_last() =~= text.take(max - 1));
    }
}

/// A leader fills its gap, with a blank at either end.
pub proof fn law_leaders_fill_their_gap(gap: nat, i: int)
    requires
        0 <= i < gap,
    ensures
        leader(gap).len() == gap,
        leader(gap)[i] == ' ' <==> i == 0 || i == gap - 1,
        leader(gap)[i] == ' ' || leader(gap)[i] == '─',
{
}

} // verus!
