//! Building and reading text: decimal numbers, joining, trimming, searching
//! and the Unicode tables of the standard library, each over `Seq<char>`.

use vstd::prelude::*;
use vstd::string::*;

verus! {

/// `String::push` puts one character behind the text.
pub assume_specification[ String::push ](s: &mut String, c: char)
    ensures
        final(s)@ == old(s)@.push(c),
;

// The ASCII characters.

/// One of the first 128 characters.
pub open spec fn is_ascii_char(c: char) -> bool {
    (c as int) < 128
}

/// Whether a text holds ASCII characters alone.
pub open spec fn is_ascii(text: Seq<char>) -> bool {
    forall|i: int| 0 <= i < text.len() ==> is_ascii_char(#[trigger] text[i])
}

/// An ASCII letter or digit.
pub open spec fn ascii_alphanumeric(c: char) -> bool {
    ('a' <= c && c <= 'z') || ('A' <= c && c <= 'Z') || ('0' <= c && c <= '9')
}

/// The blank and the characters from the tab to the carriage return.
pub open spec fn ascii_whitespace(c: char) -> bool {
    c == ' ' || ('\t' <= c && c <= '\r')
}

/// The ASCII lowercase of a character.
pub open spec fn ascii_lower(c: char) -> char {
    if 'A' <= c && c <= 'Z' {
        (c as int + 32) as char
    } else {
        c
    }
}

/// A text with its ASCII letters in lowercase.
pub open spec fn ascii_lowered(text: Seq<char>) -> Seq<char> {
    text.map_values(|c: char| ascii_lower(c))
}

// The Unicode tables behind them.

/// What `str::to_lowercase` makes of a text that is not all ASCII.
pub uninterp spec fn unicode_lowercase(text: Seq<char>) -> Seq<char>;

/// The characters that `char::to_lowercase` maps one character beyond ASCII to.
pub uninterp spec fn unicode_lowercase_char(c: char) -> Seq<char>;

/// Whether `char::is_alphanumeric` takes a character beyond ASCII for a letter
/// or a number.
pub uninterp spec fn unicode_alphanumeric(c: char) -> bool;

/// Whether `char::is_whitespace` takes a character beyond ASCII for white space.
pub uninterp spec fn unicode_whitespace(c: char) -> bool;

/// A whole text in lowercase.
pub open spec fn lowercase(text: Seq<char>) -> Seq<char> {
    if is_ascii(text) {
        ascii_lowered(text)
    } else {
        unicode_lowercase(text)
    }
}

/// The characters that make up the lowercase of one.
pub open spec fn lowercase_char(c: char) -> Seq<char> {
    if is_ascii_char(c) {
        seq![ascii_lower(c)]
    } else {
        unicode_lowercase_char(c)
    }
}

/// A letter or a number.
pub open spec fn alphanumeric(c: char) -> bool {
    if is_ascii_char(c) {
        ascii_alphanumeric(c)
    } else {
        unicode_alphanumeric(c)
    }
}

/// White space.
pub open spec fn whitespace(c: char) -> bool {
    if is_ascii_char(c) {
        ascii_whitespace(c)
    } else {
        unicode_whitespace(c)
    }
}

/// `str::to_lowercase`: an ASCII text gets each of its letters in ASCII
/// lowercase. Any other result depends on the text alone and is named, since the
/// Unicode case tables behind it are the standard library's.
#[verifier::external_body]
pub(crate) fn to_lowercase(text: &str) -> (lower: String)
    ensures
        is_ascii(text@) ==> lower@ == ascii_lowered(text@),
        !is_ascii(text@) ==> lower@ == unicode_lowercase(text@),
{
    text.to_lowercase()
}

/// `char::to_lowercase`, its characters collected in order. An ASCII character
/// gives its ASCII lowercase; the rest of the table is named.
#[verifier::external_body]
pub(crate) fn char_to_lowercase(c: char) -> (lower: Vec<char>)
    ensures
        is_ascii_char(c) ==> lower@ == seq![ascii_lower(c)],
        !is_ascii_char(c) ==> lower@ == unicode_lowercase_char(c),
{
    c.to_lowercase().collect()
}

/// `char::is_alphanumeric`, a fixed property of the character. Of the ASCII
/// characters it takes the letters and the digits; the rest of the table is
/// named.
#[verifier::external_body]
pub(crate) fn is_alphanumeric(c: char) -> (answer: bool)
    ensures
        is_ascii_char(c) ==> answer == ascii_alphanumeric(c),
        !is_ascii_char(c) ==> answer == unicode_alphanumeric(c),
{
    c.is_alphanumeric()
}

/// `char::is_whitespace`, a fixed property of the character. Of the ASCII
/// characters it takes the blank, the tab, the line feed, the vertical tab, the
/// form feed and the carriage return; the rest of the table is named.
#[verifier::external_body]
pub(crate) fn is_whitespace(c: char) -> (answer: bool)
    ensures
        is_ascii_char(c) ==> answer == ascii_whitespace(c),
        !is_ascii_char(c) ==> answer == unicode_whitespace(c),
{
    c.is_whitespace()
}

/// The text of an optional string.
pub open spec fn opt_text(text: Option<String>) -> Option<Seq<char>> {
    match text {
        Some(t) => Some(t@),
        None => None,
    }
}

/// The texts of a list of strings.
pub open spec fn texts(list: Seq<String>) -> Seq<Seq<char>> {
    list.map_values(|s: String| s@)
}

/// Whether two texts hold the same characters.
pub fn same_text(a: &str, b: &str) -> (same: bool)
    ensures
        same == (a@ == b@),
{
    a.to_owned() == b.to_owned()
}

/// Whether an optional text is present and holds exactly these characters.
pub fn is_text(a: &Option<String>, b: &str) -> (same: bool)
    ensures
        same == (opt_text(*a) == Some(b@)),
{
    match a {
        Some(a) => same_text(a.as_str(), b),
        None => false,
    }
}

/// An optional string seen as an optional slice.
pub fn opt_str(text: &Option<String>) -> (slice: Option<&str>)
    ensures
        slice is Some == text is Some,
        text is Some ==> slice->0@ == text->0@,
{
    match text {
        Some(t) => Some(t.as_str()),
        None => None,
    }
}

/// A copy of the text, or of the fallback when there is none.
pub fn text_or(text: &Option<String>, fallback: &str) -> (r: String)
    ensures
        r@ == (match *text {
            Some(t) => t@,
            None => fallback@,
        }),
{
    match text {
        Some(t) => t.clone(),
        None => fallback.to_owned(),
    }
}

/// The characters of a text, in order.
pub fn chars_of(text: &str) -> (chars: Vec<char>)
    ensures
        chars@ == text@,
{
    let mut chars: Vec<char> = Vec::new();
    for c in it: text.chars()
        invariant
            it.seq() == text@,
            chars@ == it.seq().take(it.index() as int),
    {
        assert(text@.take(it.index() + 1) =~= text@.take(it.index() as int).push(c));
        chars.push(c);
    }
    assert(chars@ =~= text@);
    chars
}

/// The text of the characters from `start` up to `end`.
pub fn string_between(chars: &Vec<char>, start: usize, end: usize) -> (text: String)
    requires
        start <= end <= chars@.len(),
    ensures
        text@ == chars@.subrange(start as int, end as int),
{
    let mut text = String::new();
    let mut i: usize = start;
    while i < end
        invariant
            start <= i <= end <= chars@.len(),
            text@ == chars@.subrange(start as int, i as int),
        decreases end - i,
    {
        assert(chars@.subrange(start as int, i + 1) =~= chars@.subrange(
            start as int,
            i as int,
        ).push(chars@[i as int]));
        text.push(chars[i]);
        i += 1;
    }
    text
}

// Decimal numbers.

/// The character of a decimal digit.
pub open spec fn digit_char(d: int) -> char {
    ('0' as int + d) as char
}

/// A natural number in decimal, without leading zeros.
pub open spec fn decimal(n: nat) -> Seq<char>
    decreases n,
{
    if n < 10 {
        seq![digit_char(n as int)]
    } else {
        decimal(n / 10).push(digit_char((n % 10) as int))
    }
}

/// An integer in decimal, with a leading minus sign below zero.
pub open spec fn decimal_int(i: int) -> Seq<char> {
    if i < 0 {
        seq!['-'] + decimal((-i) as nat)
    } else {
        decimal(i as nat)
    }
}

/// `count` zeros.
pub open spec fn zeros(count: nat) -> Seq<char> {
    Seq::new(count, |i: int| '0')
}

/// An integer in decimal, filled up with zeros behind the sign to `width`
/// characters.
#[verifier::opaque]
pub open spec fn padded(i: int, width: nat) -> Seq<char> {
    let digits = if i < 0 { decimal((-i) as nat) } else { decimal(i as nat) };
    let sign = if i < 0 { seq!['-'] } else { Seq::<char>::empty() };
    let used = sign.len() + digits.len();
    if used < width {
        sign + zeros((width - used) as nat) + digits
    } else {
        sign + digits
    }
}

fn push_digit(out: &mut String, d: u8)
    requires
        d < 10,
    ensures
        final(out)@ == old(out)@.push(digit_char(d as int)),
{
    out.push((48u8 + d) as char);
}

/// Appends a natural number in decimal.
pub fn push_decimal(out: &mut String, n: u64)
    ensures
        final(out)@ == old(out)@ + decimal(n as nat),
    decreases n,
{
    if n < 10 {
        push_digit(out, n as u8);
        assert(out@ =~= old(out)@ + decimal(n as nat));
    } else {
        push_decimal(out, n / 10);
        push_digit(out, (n % 10) as u8);
        assert(out@ =~= old(out)@ + decimal(n as nat));
    }
}

/// Appends an integer in decimal.
pub fn push_int(out: &mut String, i: i64)
    ensures
        final(out)@ == old(out)@ + decimal_int(i as int),
{
    if i < 0 {
        out.push('-');
        if i == i64::MIN {
            push_decimal(out, 9_223_372_036_854_775_808);
        } else {
            push_decimal(out, (-i) as u64);
        }
        assert(out@ =~= old(out)@ + decimal_int(i as int));
    } else {
        push_decimal(out, i as u64);
    }
}

/// Appends an integer filled up with zeros to `width` characters.
pub fn push_padded(out: &mut String, i: i64, width: usize)
    ensures
        final(out)@ == old(out)@ + padded(i as int, width as nat),
{
    let size: u64 = if i == i64::MIN {
        9_223_372_036_854_775_808
    } else if i < 0 {
        (-i) as u64
    } else {
        i as u64
    };
    let mut digits = String::new();
    push_decimal(&mut digits, size);
    assert(digits@ =~= decimal(size as nat));
    proof {
        reveal(padded);
    }
    let ghost before = out@;
    let ghost sign = if i < 0 { seq!['-'] } else { Seq::<char>::empty() };
    let mut room: usize = width;
    if i < 0 {
        out.push('-');
        room = width.saturating_sub(1);
    }
    assert(out@ =~= before + sign);
    let start: usize = chars_of(digits.as_str()).len();
    let mut used: usize = start;
    while used < room
        invariant
            start <= used,
            used <= room || used == start,
            out@ == before + sign + zeros((used - start) as nat),
        decreases room - used,
    {
        out.push('0');
        used += 1;
        assert(out@ =~= before + sign + zeros((used - start) as nat));
    }
    out.append(digits.as_str());
    assert(out@ =~= before + padded(i as int, width as nat));
}

// Joining.

/// The texts in order with the separator between any two neighbours.
pub open spec fn joined(parts: Seq<Seq<char>>, separator: Seq<char>) -> Seq<char>
    decreases parts.len(),
{
    if parts.len() == 0 {
        Seq::empty()
    } else if parts.len() == 1 {
        parts[0]
    } else {
        joined(parts.drop_last(), separator) + separator + parts.last()
    }
}

/// One more text behind a non-empty list comes after a separator.
pub proof fn lemma_joined_push(parts: Seq<Seq<char>>, part: Seq<char>, separator: Seq<char>)
    ensures
        joined(parts.push(part), separator) == if parts.len() == 0 {
            part
        } else {
            joined(parts, separator) + separator + part
        },
{
    assert(parts.push(part).drop_last() =~= parts);
}

/// Joins a list of strings.
pub fn join(parts: &Vec<String>, separator: &str) -> (text: String)
    ensures
        text@ == joined(texts(parts@), separator@),
{
    let mut text = String::new();
    let mut i: usize = 0;
    while i < parts.len()
        invariant
            i <= parts@.len(),
            text@ == joined(texts(parts@).take(i as int), separator@),
        decreases parts@.len() - i,
    {
        proof {
            let all = texts(parts@);
            assert(all.take(i + 1) =~= all.take(i as int).push(all[i as int]));
            lemma_joined_push(all.take(i as int), all[i as int], separator@);
        }
        if i > 0 {
            text.append(separator);
        }
        text.append(parts[i].as_str());
        assert(text@ =~= joined(texts(parts@).take(i + 1), separator@));
        i += 1;
    }
    assert(texts(parts@).take(i as int) =~= texts(parts@));
    text
}

/// Appends a text to a list of parts unless it is empty.
pub fn push_part(parts: &mut Vec<String>, part: String)
    ensures
        texts(final(parts)@) == with_part(texts(old(parts)@), part@),
{
    if !part.as_str().is_empty() {
        parts.push(part);
    }
    assert(texts(parts@) =~= with_part(texts(old(parts)@), part@));
}

/// A list of parts with one more behind it, unless that one is empty.
pub open spec fn with_part(parts: Seq<Seq<char>>, part: Seq<char>) -> Seq<Seq<char>> {
    if part.len() == 0 {
        parts
    } else {
        parts.push(part)
    }
}

/// A list of parts with an optional one behind it.
pub open spec fn with_opt(parts: Seq<Seq<char>>, part: Option<Seq<char>>) -> Seq<Seq<char>> {
    match part {
        Some(p) => with_part(parts, p),
        None => parts,
    }
}

/// Appends an optional text to a list of parts, unless it is empty.
pub fn push_opt(parts: &mut Vec<String>, part: Option<String>)
    ensures
        texts(final(parts)@) == with_opt(texts(old(parts)@), opt_text(part)),
{
    if let Some(part) = part {
        push_part(parts, part);
    }
}

// Trimming and searching.

/// The text without its leading white space.
pub open spec fn trimmed_start(text: Seq<char>) -> Seq<char>
    decreases text.len(),
{
    if text.len() > 0 && whitespace(text[0]) {
        trimmed_start(text.drop_first())
    } else {
        text
    }
}

/// The text without its trailing white space.
pub open spec fn trimmed_end(text: Seq<char>) -> Seq<char>
    decreases text.len(),
{
    if text.len() > 0 && whitespace(text.last()) {
        trimmed_end(text.drop_last())
    } else {
        text
    }
}

/// The text without white space at either end.
pub open spec fn trimmed(text: Seq<char>) -> Seq<char> {
    trimmed_end(trimmed_start(text))
}

/// Whether a text holds nothing but white space.
pub open spec fn blank(text: Seq<char>) -> bool {
    forall|i: int| 0 <= i < text.len() ==> whitespace(#[trigger] text[i])
}

/// Trimming leaves nothing exactly of the blank texts.
pub proof fn lemma_blank_is_trimmed_away(text: Seq<char>)
    ensures
        blank(text) <==> trimmed(text).len() == 0,
    decreases text.len(),
{
    if text.len() > 0 && whitespace(text[0]) {
        let rest = text.drop_first();
        lemma_blank_is_trimmed_away(rest);
        assert forall|i: int| blank(rest) && 0 <= i < text.len() implies whitespace(
            #[trigger] text[i],
        ) by {
            if i > 0 {
                assert(rest[i - 1] == text[i]);
            }
        }
        assert(blank(text) ==> blank(rest)) by {
            if blank(text) {
                assert forall|i: int| 0 <= i < rest.len() implies whitespace(
                    #[trigger] rest[i],
                ) by {
                    assert(rest[i] == text[i + 1]);
                }
            }
        }
    } else if text.len() > 0 {
        assert(!blank(text)) by {
            assert(!whitespace(text[0]));
        }
        lemma_trimmed_end_keeps_start(text);
    }
}

proof fn lemma_trimmed_end_keeps_start(text: Seq<char>)
    requires
        text.len() > 0,
        !whitespace(text[0]),
    ensures
        trimmed_end(text).len() > 0,
    decreases text.len(),
{
    if whitespace(text.last()) {
        assert(text.len() > 1);
        lemma_trimmed_end_keeps_start(text.drop_last());
    }
}

/// Whether a text holds nothing but white space.
pub fn is_blank(text: &str) -> (answer: bool)
    ensures
        answer == blank(text@),
{
    let chars: Vec<char> = chars_of(text);
    let mut i: usize = 0;
    while i < chars.len()
        invariant
            i <= chars@.len(),
            chars@ == text@,
            forall|j: int| 0 <= j < i ==> whitespace(#[trigger] text@[j]),
        decreases chars@.len() - i,
    {
        if !is_whitespace(chars[i]) {
            assert(!whitespace(text@[i as int]));
            return false;
        }
        i += 1;
    }
    true
}

/// A copy of the text without white space at either end.
pub fn trim(text: &str) -> (r: String)
    ensures
        r@ == trimmed(text@),
{
    let chars: Vec<char> = chars_of(text);
    let n: usize = chars.len();
    let mut start: usize = 0;
    assert(chars@.skip(0) =~= chars@);
    while start < n && is_whitespace(chars[start])
        invariant
            start <= n == chars@.len(),
            trimmed_start(chars@.skip(start as int)) == trimmed_start(chars@),
        decreases n - start,
    {
        assert(chars@.skip(start as int).drop_first() =~= chars@.skip(start + 1));
        start += 1;
    }
    let ghost rest = chars@.skip(start as int);
    assert(trimmed_start(rest) == rest);
    let mut end: usize = n;
    while end > start && is_whitespace(chars[end - 1])
        invariant
            start <= end <= n == chars@.len(),
            trimmed_end(chars@.subrange(start as int, end as int)) == trimmed_end(rest),
        decreases end,
    {
        assert(chars@.subrange(start as int, end as int).drop_last() =~= chars@.subrange(
            start as int,
            end - 1,
        ));
        assert(chars@.subrange(start as int, end as int).last() == chars@[end - 1]);
        end -= 1;
    }
    assert(end == start || !whitespace(chars@.subrange(start as int, end as int).last()));
    string_between(&chars, start, end)
}

/// A copy of the text without white space at its end.
pub fn trim_end(text: &str) -> (r: String)
    ensures
        r@ == trimmed_end(text@),
{
    let chars: Vec<char> = chars_of(text);
    let mut end: usize = chars.len();
    assert(chars@.take(end as int) =~= chars@);
    while end > 0 && is_whitespace(chars[end - 1])
        invariant
            end <= chars@.len(),
            trimmed_end(chars@.take(end as int)) == trimmed_end(chars@),
        decreases end,
    {
        assert(chars@.take(end as int).drop_last() =~= chars@.take(end - 1));
        assert(chars@.take(end as int).last() == chars@[end - 1]);
        end -= 1;
    }
    let r: String = string_between(&chars, 0, end);
    assert(end == 0 || !whitespace(chars@.take(end as int).last()));
    assert(r@ =~= chars@.take(end as int));
    r
}

/// Whether `needle` stands in `text` from position `at` on.
pub open spec fn occurs_at(text: Seq<char>, needle: Seq<char>, at: int) -> bool {
    &&& 0 <= at
    &&& at + needle.len() <= text.len()
    &&& text.subrange(at, at + needle.len()) == needle
}

/// Whether `needle` stands anywhere in `text`.
pub open spec fn occurs(text: Seq<char>, needle: Seq<char>) -> bool {
    exists|at: int| occurs_at(text, needle, at)
}

/// A text holds a needle exactly if it is made of something, the needle and
/// something else; in particular it holds itself and the empty text.
pub proof fn law_a_found_needle_is_part_of_the_text(text: Seq<char>, needle: Seq<char>)
    ensures
        occurs(text, needle) <==> exists|before: Seq<char>, after: Seq<char>|
            text == #[trigger] (before + needle + after),
        occurs(text, text),
        occurs(text, Seq::empty()),
{
    if occurs(text, needle) {
        let at = choose|at: int| occurs_at(text, needle, at);
        let before = text.take(at);
        let after = text.skip(at + needle.len());
        assert(text =~= before + text.subrange(at, at + needle.len()) + after);
    }
    if exists|before: Seq<char>, after: Seq<char>| text == #[trigger] (before + needle + after) {
        let (before, after) = choose|before: Seq<char>, after: Seq<char>|
            text == #[trigger] (before + needle + after);
        let at = before.len() as int;
        assert(text.subrange(at, at + needle.len()) =~= needle);
        assert(occurs_at(text, needle, at));
    }
    assert(text.subrange(0, text.len() as int) =~= text);
    assert(occurs_at(text, text, 0));
    assert(text.subrange(0, 0) =~= Seq::empty());
    assert(occurs_at(text, Seq::empty(), 0));
}

/// Whether `needle` stands anywhere in `text`.
pub fn contains(text: &str, needle: &str) -> (answer: bool)
    ensures
        answer == occurs(text@, needle@),
{
    let hay: Vec<char> = chars_of(text);
    let pin: Vec<char> = chars_of(needle);
    let mut at: usize = 0;
    while at <= hay.len() && pin.len() <= hay.len() - at
        invariant
            at <= hay@.len() + 1,
            hay@ == text@,
            pin@ == needle@,
            forall|j: int| 0 <= j < at ==> !occurs_at(text@, needle@, j),
        decreases hay@.len() + 1 - at,
    {
        let mut k: usize = 0;
        while k < pin.len() && hay[at + k] == pin[k]
            invariant
                k <= pin@.len(),
                at + pin@.len() <= hay@.len() <= usize::MAX,
                forall|j: int| 0 <= j < k ==> hay@[at + j] == #[trigger] pin@[j],
            decreases pin@.len() - k,
        {
            k += 1;
        }
        if k == pin.len() {
            assert(hay@.subrange(at as int, at + pin@.len()) =~= pin@);
            assert(occurs_at(text@, needle@, at as int));
            return true;
        }
        proof {
            if occurs_at(text@, needle@, at as int) {
                assert(hay@.subrange(at as int, at + pin@.len())[k as int] == pin@[k as int]);
            }
        }
        at += 1;
    }
    proof {
        assert forall|j: int| !occurs_at(text@, needle@, j) by {
            if occurs_at(text@, needle@, j) && j >= at {
                assert(false);
            }
        }
    }
    false
}

/// Whether two texts are equal up to the case of their ASCII letters.
pub open spec fn same_ignoring_ascii_case(a: Seq<char>, b: Seq<char>) -> bool {
    &&& a.len() == b.len()
    &&& forall|i: int| 0 <= i < a.len() ==> ascii_lower(#[trigger] a[i]) == ascii_lower(b[i])
}

/// Two ASCII texts that differ only in the case of their letters have the same
/// lowercase, and lowercase is left alone by lowering it again.
pub proof fn law_lowercase_ignores_ascii_case(a: Seq<char>, b: Seq<char>)
    requires
        is_ascii(a),
        same_ignoring_ascii_case(a, b),
    ensures
        lowercase(b) == lowercase(a),
        lowercase(lowercase(a)) == lowercase(a),
{
    assert forall|i: int| 0 <= i < b.len() implies is_ascii_char(#[trigger] b[i]) by {
        assert(ascii_lower(a[i]) == ascii_lower(b[i]));
    }
    assert(ascii_lowered(b) =~= ascii_lowered(a)) by {
        assert forall|i: int| 0 <= i < b.len() implies ascii_lowered(b)[i] == ascii_lowered(
            a,
        )[i] by {
            assert(ascii_lower(a[i]) == ascii_lower(b[i]));
        }
    }
    assert(is_ascii(ascii_lowered(a)));
    assert(ascii_lowered(ascii_lowered(a)) =~= ascii_lowered(a));
}

fn lower_ascii(c: char) -> (lower: char)
    ensures
        lower == ascii_lower(c),
{
    if 'A' <= c && c <= 'Z' {
        (c as u8 + 32) as char
    } else {
        c
    }
}

/// Compares two texts up to the case of their ASCII letters.
pub fn eq_ignoring_ascii_case(a: &str, b: &str) -> (same: bool)
    ensures
        same == same_ignoring_ascii_case(a@, b@),
{
    let left: Vec<char> = chars_of(a);
    let right: Vec<char> = chars_of(b);
    if left.len() != right.len() {
        return false;
    }
    let mut i: usize = 0;
    while i < left.len()
        invariant
            i <= left@.len(),
            left@ == a@,
            right@ == b@,
            a@.len() == b@.len(),
            forall|j: int| 0 <= j < i ==> ascii_lower(#[trigger] a@[j]) == ascii_lower(b@[j]),
        decreases left@.len() - i,
    {
        if lower_ascii(left[i]) != lower_ascii(right[i]) {
            assert(ascii_lower(a@[i as int]) != ascii_lower(b@[i as int]));
            return false;
        }
        i += 1;
    }
    true
}

/// A text filled up with blanks to a width in characters.
pub open spec fn padded_right(text: Seq<char>, width: nat) -> Seq<char> {
    if text.len() >= width {
        text
    } else {
        text + Seq::new((width - text.len()) as nat, |i: int| ' ')
    }
}

/// Fill a text up with blanks to a width in characters.
pub fn pad_right(text: &str, width: usize) -> (r: String)
    ensures
        r@ == padded_right(text@, width as nat),
{
    let mut r: String = text.to_owned();
    let len: usize = chars_of(text).len();
    let mut n: usize = len;
    assert(r@ =~= text@ + Seq::new(0, |i: int| ' '));
    while n < width
        invariant
            len == text@.len(),
            len <= n,
            n <= width || n == len,
            r@ == text@ + Seq::new((n - len) as nat, |i: int| ' '),
        decreases width - n,
    {
        r.push(' ');
        assert(r@ =~= text@ + Seq::new((n + 1 - len) as nat, |i: int| ' '));
        n += 1;
    }
    assert(r@ =~= padded_right(text@, width as nat));
    r
}

} // verus!
