//! Cross-app payloads for "open the item I am looking at in Radarr/Sonarr".
//!
//! The Jellyfin app builds a [`RevealRequest`] from the hovered item and sends
//! it to the owning arr app, which resolves it against its own library and
//! either opens the detail page or answers with a [`RevealFailed`].

use vstd::prelude::*;
use vstd::string::*;

use crate::app::AppId;
use crate::text::{
    alphanumeric, ascii_alphanumeric, ascii_lower, char_to_lowercase, is_alphanumeric, is_ascii,
    is_ascii_char, joined, lemma_joined_push, lowercase_char, same_ignoring_ascii_case, same_text,
};

verus! {

/// Which arr app owns a kind of Jellyfin item. Seasons and episodes resolve to
/// their series, so there is no separate episode variant.
#[derive(Debug, Clone, Copy, PartialEq, Eq, Structural)]
pub enum RevealKind {
    Movie,
    Series,
}

impl RevealKind {
    /// The app that can open this kind of item.
    pub fn app_id(self) -> (id: AppId)
        ensures
            id == match self {
                RevealKind::Movie => "radarr",
                RevealKind::Series => "sonarr",
            },
    {
        match self {
            RevealKind::Movie => "radarr",
            RevealKind::Series => "sonarr",
        }
    }

    /// Tab label, for the messages the user reads.
    pub fn app_title(self) -> (title: &'static str)
        ensures
            title == match self {
                RevealKind::Movie => "Radarr",
                RevealKind::Series => "Sonarr",
            },
    {
        match self {
            RevealKind::Movie => "Radarr",
            RevealKind::Series => "Sonarr",
        }
    }
}

/// Which arr tabs are configured. Jellyfin keeps a copy so it can gate the
/// `u` binding and leave the hint out of its help entirely.
#[derive(Debug, Clone, Copy, PartialEq, Eq, Structural, Default)]
pub struct ArrTargets {
    pub radarr: bool,
    pub sonarr: bool,
}

impl ArrTargets {
    /// Whether the app that owns this kind of item is configured.
    pub fn has(self, kind: RevealKind) -> (answer: bool)
        ensures
            answer == match kind {
                RevealKind::Movie => self.radarr,
                RevealKind::Series => self.sonarr,
            },
    {
        match kind {
            RevealKind::Movie => self.radarr,
            RevealKind::Series => self.sonarr,
        }
    }
}

/// A Jellyfin item to find and open in Radarr/Sonarr.
#[derive(Debug)]
pub struct RevealRequest {
    /// Jellyfin's reveal generation, echoed back in [`RevealFailed`] so a
    /// failure for an abandoned request cannot overwrite the message for a
    /// newer one.
    pub reveal_gen: u64,
    /// The app that asked, so the outcome can be reported back to the tab the
    /// user is still looking at.
    pub origin: AppId,
    pub kind: RevealKind,
    /// TMDB id for a movie, TVDB id for a series. `None` when Jellyfin has no
    /// id for the item, which leaves only the title/year fallback.
    pub external_id: Option<i64>,
    pub title: String,
    pub year: Option<i32>,
}

/// Sent back to Jellyfin when the arr app could not open the item.
#[derive(Debug)]
pub struct RevealFailed {
    pub reveal_gen: u64,
    pub reason: String,
}

/// Why a reveal found nothing to open.
#[derive(Debug, Clone, Copy, PartialEq, Eq, Structural)]
pub enum RevealMiss {
    NotFound,
    /// Several library entries share the title and the years could not tell
    /// them apart. Reported rather than guessed.
    Ambiguous,
    /// The target app has no library to search: never connected, or its list
    /// fetch failed.
    Unavailable,
}

impl RevealMiss {
    /// The user-facing message, naming the app that was searched.
    pub fn reason(self, app_title: &str) -> (text: String)
        ensures
            text@ == match self {
                RevealMiss::NotFound => "not in "@ + app_title@,
                RevealMiss::Ambiguous => "several possible matches in "@ + app_title@,
                RevealMiss::Unavailable => app_title@ + " is unavailable"@,
            },
    {
        match self {
            RevealMiss::NotFound => "not in ".to_owned().concat(app_title),
            RevealMiss::Ambiguous => "several possible matches in ".to_owned().concat(app_title),
            RevealMiss::Unavailable => app_title.to_owned().concat(" is unavailable"),
        }
    }
}

/// What came of handing a request to the app that owns the library.
#[derive(Debug, Clone, Copy, PartialEq, Eq, Structural)]
pub enum RevealOutcome {
    /// The detail page is open; the app should now ask the shell for focus.
    Opened,
    /// The library has not arrived yet. The request stays pending and is
    /// retried when the next list result lands.
    Waiting,
    Missed(RevealMiss),
}

/// One library entry as [`match_index`] needs to see it, so Radarr's movies and
/// Sonarr's series share a single implementation.
#[derive(Debug, Clone, Copy)]
pub struct Candidate<'a> {
    pub external_id: Option<i64>,
    pub title: Option<&'a str>,
    pub year: Option<i32>,
}

// Titles.

/// The words of a title: its longest runs of letters and numbers, in order.
pub open spec fn words(title: Seq<char>) -> Seq<Seq<char>>
    decreases title.len(),
{
    if title.len() == 0 {
        Seq::empty()
    } else {
        let before = words(title.drop_last());
        if !alphanumeric(title.last()) {
            before
        } else if in_word(title.drop_last()) {
            before.update(before.len() - 1, before.last().push(title.last()))
        } else {
            before.push(seq![title.last()])
        }
    }
}

/// Whether a text ends inside a word.
pub open spec fn in_word(title: Seq<char>) -> bool {
    title.len() > 0 && alphanumeric(title.last())
}

/// A word with each character in lowercase.
pub open spec fn lowered(word: Seq<char>) -> Seq<char>
    decreases word.len(),
{
    if word.len() == 0 {
        Seq::empty()
    } else {
        lowered(word.drop_last()) + lowercase_char(word.last())
    }
}

/// Each word in lowercase.
pub open spec fn lowered_words(list: Seq<Seq<char>>) -> Seq<Seq<char>> {
    list.map_values(|word: Seq<char>| lowered(word))
}

/// A title folded down to its words in lowercase with single spaces between.
pub open spec fn normalised(title: Seq<char>) -> Seq<char> {
    joined(lowered_words(words(title)), " "@)
}

proof fn lemma_words_nonempty(title: Seq<char>)
    requires
        in_word(title),
    ensures
        words(title).len() > 0,
    decreases title.len(),
{
    if in_word(title.drop_last()) {
        lemma_words_nonempty(title.drop_last());
    }
}

/// What one more letter does to the folded title.
proof fn lemma_letter(title: Seq<char>, c: char)
    requires
        alphanumeric(c),
    ensures
        words(title.push(c)).len() > 0,
        normalised(title.push(c)) == if in_word(title) || words(title).len() == 0 {
            normalised(title) + lowercase_char(c)
        } else {
            normalised(title) + " "@ + lowercase_char(c)
        },
{
    let next = title.push(c);
    assert(next.drop_last() =~= title);
    let (old_words, new_words) = (words(title), words(next));
    let (a, b) = (lowered_words(old_words), lowered_words(new_words));
    if in_word(title) {
        lemma_words_nonempty(title);
        let head = a.drop_last();
        let (w, w2) = (old_words.last(), new_words.last());
        assert(w2.drop_last() =~= w);
        assert(lowered(w2) =~= lowered(w) + lowercase_char(c));
        assert(b.drop_last() =~= head);
        assert(a =~= head.push(lowered(w)));
        assert(b =~= head.push(lowered(w2)));
        lemma_joined_push(head, lowered(w), " "@);
        lemma_joined_push(head, lowered(w2), " "@);
        assert(normalised(next) =~= normalised(title) + lowercase_char(c));
    } else {
        let w = seq![c];
        assert(w.drop_last() =~= Seq::empty());
        assert(lowered(w.drop_last()) =~= Seq::empty());
        assert(lowered(w) =~= lowercase_char(c));
        assert(b =~= a.push(lowered(w)));
        lemma_joined_push(a, lowered(w), " "@);
        if old_words.len() == 0 {
            assert(a =~= Seq::empty());
            assert(normalised(title) =~= Seq::empty());
            assert(normalised(next) =~= normalised(title) + lowercase_char(c));
        }
    }
}

/// Whether an ASCII text ends inside a word.
pub open spec fn in_ascii_word(title: Seq<char>) -> bool {
    title.len() > 0 && ascii_alphanumeric(title.last())
}

/// An ASCII title folded down: its letters and digits in lowercase, with a
/// space between those of two words.
pub open spec fn ascii_folded(title: Seq<char>) -> Seq<char>
    decreases title.len(),
{
    if title.len() == 0 {
        Seq::empty()
    } else {
        let before = ascii_folded(title.drop_last());
        if !ascii_alphanumeric(title.last()) {
            before
        } else if in_ascii_word(title.drop_last()) || before.len() == 0 {
            before.push(ascii_lower(title.last()))
        } else {
            before.push(' ').push(ascii_lower(title.last()))
        }
    }
}

/// The letters and digits of an ASCII title in lowercase, in order.
pub open spec fn ascii_letters(title: Seq<char>) -> Seq<char>
    decreases title.len(),
{
    if title.len() == 0 {
        Seq::empty()
    } else if ascii_alphanumeric(title.last()) {
        ascii_letters(title.drop_last()).push(ascii_lower(title.last()))
    } else {
        ascii_letters(title.drop_last())
    }
}

/// A lowercase ASCII letter or a digit.
pub open spec fn is_folded_letter(c: char) -> bool {
    ('a' <= c && c <= 'z') || ('0' <= c && c <= '9')
}

/// Lowercase letters and digits with single spaces between, and none at the
/// ends.
pub open spec fn is_folded(text: Seq<char>) -> bool {
    &&& forall|i: int|
        0 <= i < text.len() ==> is_folded_letter(#[trigger] text[i]) || (text[i] == ' ' && 0 < i
            < text.len() - 1 && is_folded_letter(text[i - 1]) && is_folded_letter(text[i + 1]))
}

proof fn lemma_folded_shape(title: Seq<char>)
    ensures
        is_folded(ascii_folded(title)),
        is_ascii(ascii_folded(title)),
        ascii_folded(title).len() > 0 ==> is_folded_letter(ascii_folded(title).last()),
        in_ascii_word(title) ==> ascii_folded(title).len() > 0,
        ascii_letters(ascii_folded(title)) == ascii_letters(title),
    decreases title.len(),
{
    if title.len() > 0 {
        let before = ascii_folded(title.drop_last());
        lemma_folded_shape(title.drop_last());
        let c = ascii_lower(title.last());
        if ascii_alphanumeric(title.last()) {
            assert(is_folded_letter(c));
            assert(ascii_lower(c) == c);
            if in_ascii_word(title.drop_last()) || before.len() == 0 {
                assert(before.push(c).drop_last() =~= before);
                assert forall|i: int| 0 <= i < before.len() implies is_folded_letter(
                    #[trigger] before.push(c)[i],
                ) || (before.push(c)[i] == ' ' && 0 < i < before.len() && is_folded_letter(
                    before.push(c)[i - 1],
                ) && is_folded_letter(before.push(c)[i + 1])) by {
                    assert(before.push(c)[i] == before[i]);
                }
            } else {
                let spaced = before.push(' ');
                assert(spaced.push(c).drop_last() =~= spaced);
                assert(spaced.drop_last() =~= before);
                assert forall|i: int| 0 <= i < before.len() implies is_folded_letter(
                    #[trigger] spaced.push(c)[i],
                ) || (spaced.push(c)[i] == ' ' && 0 < i < spaced.len() && is_folded_letter(
                    spaced.push(c)[i - 1],
                ) && is_folded_letter(spaced.push(c)[i + 1])) by {
                    assert(spaced.push(c)[i] == before[i]);
                }
                assert(spaced.push(c)[before.len() - 1] == before.last());
                assert(ascii_letters(spaced) == ascii_letters(before));
            }
        }
    }
}

proof fn lemma_fold_twice(title: Seq<char>)
    ensures
        ascii_folded(ascii_folded(title)) == ascii_folded(title),
    decreases title.len(),
{
    if title.len() > 0 {
        let before = ascii_folded(title.drop_last());
        lemma_fold_twice(title.drop_last());
        lemma_folded_shape(title.drop_last());
        if ascii_alphanumeric(title.last()) {
            let c = ascii_lower(title.last());
            assert(ascii_lower(c) == c && ascii_alphanumeric(c));
            if in_ascii_word(title.drop_last()) || before.len() == 0 {
                assert(before.push(c).drop_last() =~= before);
            } else {
                let spaced = before.push(' ');
                assert(spaced.push(c).drop_last() =~= spaced);
                assert(spaced.drop_last() =~= before);
                assert(ascii_folded(spaced) == before);
            }
        }
    }
}

proof fn lemma_fold_ignores_case(a: Seq<char>, b: Seq<char>)
    requires
        same_ignoring_ascii_case(a, b),
    ensures
        ascii_folded(a) == ascii_folded(b),
    decreases a.len(),
{
    if a.len() > 0 {
        let (x, y) = (a[a.len() - 1], b[b.len() - 1]);
        assert(ascii_lower(x) == ascii_lower(y));
        assert(ascii_alphanumeric(x) == ascii_alphanumeric(y));
        assert forall|i: int| 0 <= i < a.len() - 1 implies ascii_lower(
            #[trigger] a.drop_last()[i],
        ) == ascii_lower(b.drop_last()[i]) by {
            assert(ascii_lower(a[i]) == ascii_lower(b[i]));
        }
        lemma_fold_ignores_case(a.drop_last(), b.drop_last());
        if a.len() > 1 {
            let (v, w) = (a[a.len() - 2], b[b.len() - 2]);
            assert(ascii_lower(v) == ascii_lower(w));
            assert(ascii_alphanumeric(v) == ascii_alphanumeric(w));
        }
    }
}

/// On ASCII titles folding works character by character.
proof fn lemma_ascii_titles(title: Seq<char>)
    requires
        is_ascii(title),
    ensures
        normalised(title) == ascii_folded(title),
        (words(title).len() > 0) == (ascii_folded(title).len() > 0),
    decreases title.len(),
{
    if title.len() == 0 {
        assert(lowered_words(words(title)) =~= Seq::empty());
    } else {
        let before = title.drop_last();
        let c = title[title.len() - 1];
        assert(is_ascii(before)) by {
            assert forall|i: int| 0 <= i < before.len() implies is_ascii_char(
                #[trigger] before[i],
            ) by {
                assert(before[i] == title[i]);
            }
        }
        lemma_ascii_titles(before);
        assert(is_ascii_char(c));
        assert(before.len() > 0 ==> before.last() == title[title.len() - 2]);
        assert(in_word(before) == in_ascii_word(before));
        if ascii_alphanumeric(c) {
            assert(before.push(c) =~= title);
            lemma_letter(before, c);
            if in_word(before) {
                lemma_words_nonempty(before);
            }
            reveal_strlit(" ");
            assert(normalised(title) =~= ascii_folded(title));
        }
    }
}

/// An ASCII title folds to lowercase letters and digits with single spaces
/// between and none at the ends: exactly its own letters and digits, in order.
/// Folding the result again changes nothing, and a title that differs only in
/// the case of its letters, such as the upper-cased one, folds to the same.
pub proof fn law_ascii_titles_fold_once(title: Seq<char>, other_case: Seq<char>)
    requires
        is_ascii(title),
        same_ignoring_ascii_case(title, other_case),
    ensures
        normalised(title) == ascii_folded(title),
        is_folded(normalised(title)),
        is_ascii(normalised(title)),
        ascii_letters(normalised(title)) == ascii_letters(title),
        normalised(normalised(title)) == normalised(title),
        normalised(other_case) == normalised(title),
        is_ascii(other_case),
{
    lemma_folded_shape(title);
    lemma_fold_twice(title);
    lemma_fold_ignores_case(title, other_case);
    assert forall|i: int| 0 <= i < other_case.len() implies is_ascii_char(
        #[trigger] other_case[i],
    ) by {
        assert(ascii_lower(title[i]) == ascii_lower(other_case[i]));
    }
    lemma_ascii_titles(title);
    lemma_ascii_titles(other_case);
    lemma_ascii_titles(ascii_folded(title));
}

/// Fold a title down to what two metadata sources are likely to agree on:
/// lowercase alphanumerics separated by single spaces. Punctuation and case are
/// where Jellyfin and the arr sources most often differ on the same title.
pub fn normalise_title(title: &str) -> (out: String)
    ensures
        out@ == normalised(title@),
        is_ascii(title@) ==> out@ == ascii_folded(title@),
{
    let mut out = String::new();
    // Whether a word was seen at all, and whether one is open right now.
    let mut started = false;
    let mut open = false;
    assert(title@.take(0) =~= Seq::empty());
    assert(lowered_words(words(title@.take(0))) =~= Seq::empty());
    for c in it: title.chars()
        invariant
            it.seq() == title@,
            out@ == normalised(title@.take(it.index() as int)),
            started == (words(title@.take(it.index() as int)).len() > 0),
            open == in_word(title@.take(it.index() as int)),
    {
        let ghost done = title@.take(it.index() as int);
        assert(title@.take(it.index() + 1) =~= done.push(c));
        assert(done.push(c).drop_last() =~= done);
        if is_alphanumeric(c) {
            proof {
                lemma_letter(done, c);
                if open {
                    lemma_words_nonempty(done);
                }
            }
            if started && !open {
                out.push(' ');
                proof {
                    reveal_strlit(" ");
                    assert(out@ =~= normalised(done) + " "@);
                }
            }
            let lower: Vec<char> = char_to_lowercase(c);
            push_chars(&mut out, &lower);
            started = true;
            open = true;
        } else {
            open = false;
        }
    }
    assert(title@.take(title@.len() as int) =~= title@);
    proof {
        if is_ascii(title@) {
            lemma_ascii_titles(title@);
        }
    }
    out
}

fn push_chars(out: &mut String, chars: &Vec<char>)
    ensures
        final(out)@ == old(out)@ + chars@,
{
    let mut i: usize = 0;
    while i < chars.len()
        invariant
            i <= chars@.len(),
            out@ == old(out)@ + chars@.take(i as int),
        decreases chars@.len() - i,
    {
        out.push(chars[i]);
        assert(chars@.take(i + 1) =~= chars@.take(i as int).push(chars@[i as int]));
        assert(out@ =~= old(out)@ + chars@.take(i + 1));
        i += 1;
    }
    assert(chars@.take(i as int) =~= chars@);
}

// Matching.

/// Whether the entry carries the external id that is asked for.
pub open spec fn id_hit(candidate: Candidate<'_>, request: RevealRequest) -> bool {
    request.external_id is Some && candidate.external_id == request.external_id
}

/// Whether the entry agrees in its normalised title, and in its year where
/// both sides know one. A title that folds to nothing agrees with none.
pub open spec fn title_hit(candidate: Candidate<'_>, request: RevealRequest) -> bool {
    &&& normalised(request.title@).len() > 0
    &&& candidate.title is Some
    &&& normalised(candidate.title->0@) == normalised(request.title@)
    &&& (request.year is Some && candidate.year is Some ==> request.year == candidate.year)
}

/// Whether this is the first entry with the id that is asked for.
pub open spec fn is_first_id_hit(
    candidates: Seq<Candidate<'_>>,
    request: RevealRequest,
    i: int,
) -> bool {
    &&& 0 <= i < candidates.len()
    &&& id_hit(candidates[i], request)
    &&& forall|j: int| 0 <= j < i ==> !id_hit(#[trigger] candidates[j], request)
}

/// Whether this is the only entry that agrees by title.
pub open spec fn is_only_title_hit(
    candidates: Seq<Candidate<'_>>,
    request: RevealRequest,
    i: int,
) -> bool {
    &&& 0 <= i < candidates.len()
    &&& title_hit(candidates[i], request)
    &&& forall|j: int|
        0 <= j < candidates.len() && j != i ==> !title_hit(#[trigger] candidates[j], request)
}

/// Whether some entry carries the id that is asked for.
pub open spec fn any_id_hit(candidates: Seq<Candidate<'_>>, request: RevealRequest) -> bool {
    exists|i: int| 0 <= i < candidates.len() && id_hit(#[trigger] candidates[i], request)
}

/// Whether some entry agrees by title.
pub open spec fn any_title_hit(candidates: Seq<Candidate<'_>>, request: RevealRequest) -> bool {
    exists|i: int| 0 <= i < candidates.len() && title_hit(#[trigger] candidates[i], request)
}

/// Find the library entry a request refers to, as an index into `candidates`.
///
/// An external-id hit is authoritative and wins immediately. Otherwise the
/// normalised titles must agree, and so must the years when both sides know
/// one — a year is what separates a remake from the original, but plenty of
/// entries have none, so a missing year cannot be treated as a mismatch. Any
/// remaining tie is an [`RevealMiss::Ambiguous`] rather than a guess.
pub fn match_index(candidates: &[Candidate<'_>], request: &RevealRequest) -> (found: Result<
    usize,
    RevealMiss,
>)
    ensures
        any_id_hit(candidates@, *request) ==> found is Ok && is_first_id_hit(
            candidates@,
            *request,
            found->Ok_0 as int,
        ),
        !any_id_hit(candidates@, *request) ==> match found {
            Ok(i) => is_only_title_hit(candidates@, *request, i as int),
            Err(RevealMiss::NotFound) => !any_title_hit(candidates@, *request),
            Err(RevealMiss::Ambiguous) => exists|i: int, j: int|
                0 <= i < j < candidates@.len() && title_hit(#[trigger] candidates@[i], *request)
                    && title_hit(#[trigger] candidates@[j], *request),
            Err(RevealMiss::Unavailable) => false,
        },
{
    let wanted: String = normalise_title(request.title.as_str());
    let untitled: bool = wanted.as_str().is_empty();
    // The first entry that agrees by title, and whether there is another.
    let mut first: Option<usize> = None;
    let mut several = false;
    let ghost mut second: int = 0;
    let mut i: usize = 0;
    while i < candidates.len()
        invariant
            i <= candidates@.len(),
            wanted@ == normalised(request.title@),
            untitled == (wanted@.len() == 0),
            forall|j: int| 0 <= j < i ==> !id_hit(#[trigger] candidates@[j], *request),
            first is None ==> !several && forall|j: int|
                0 <= j < i ==> !title_hit(#[trigger] candidates@[j], *request),
            first is Some ==> first->0 < i && title_hit(candidates@[first->0 as int], *request),
            first is Some && !several ==> forall|j: int|
                0 <= j < i && j != first->0 ==> !title_hit(#[trigger] candidates@[j], *request),
            several ==> first is Some && first->0 < second < i && title_hit(
                candidates@[second],
                *request,
            ),
        decreases candidates@.len() - i,
    {
        let candidate: Candidate<'_> = candidates[i];
        if let (Some(wanted_id), Some(id)) = (request.external_id, candidate.external_id) {
            if wanted_id == id {
                assert(id_hit(candidates@[i as int], *request));
                return Ok(i);
            }
        }
        assert(!id_hit(candidates@[i as int], *request));
        let year_agrees: bool = match (request.year, candidate.year) {
            (Some(wanted_year), Some(year)) => wanted_year == year,
            _ => true,
        };
        let title_agrees: bool = match candidate.title {
            Some(title) => !untitled && same_text(normalise_title(title).as_str(), wanted.as_str()),
            None => false,
        };
        if title_agrees && year_agrees {
            assert(title_hit(candidates@[i as int], *request));
            if first.is_none() {
                first = Some(i);
            } else if !several {
                several = true;
                proof {
                    second = i as int;
                }
            }
        } else {
            assert(!title_hit(candidates@[i as int], *request));
        }
        i += 1;
    }
    match first {
        Some(only) => {
            if several {
                assert(title_hit(candidates@[only as int], *request));
                Err(RevealMiss::Ambiguous)
            } else {
                Ok(only)
            }
        },
        None => Err(RevealMiss::NotFound),
    }
}

/// A blank request finds an entry by its id alone.
pub proof fn law_untitled_requests_match_by_id_only(
    candidates: Seq<Candidate<'_>>,
    request: RevealRequest,
)
    requires
        normalised(request.title@).len() == 0,
    ensures
        !any_title_hit(candidates, request),
{
}

/// A missing year on either side is no reason to reject a title.
pub proof fn law_missing_year_is_no_mismatch(candidate: Candidate<'_>, request: RevealRequest)
    requires
        request.year is None || candidate.year is None,
        candidate.title is Some,
        normalised(candidate.title->0@) == normalised(request.title@),
        normalised(request.title@).len() > 0,
    ensures
        title_hit(candidate, request),
{
}

/// An id decides alone: the title and the year of a request play no part in
/// whether a candidate's id meets it, and a request without one meets no id.
pub proof fn law_ids_meet_by_themselves(candidate: Candidate<'_>, request: RevealRequest)
    ensures
        request.external_id is None ==> !id_hit(candidate, request),
        candidate.external_id is None ==> !id_hit(candidate, request),
        request.external_id is Some && candidate.external_id is Some ==> (id_hit(candidate, request)
            <==> request.external_id->0 == candidate.external_id->0),
{
}

/// Titles that differ in case alone meet where the years do not contradict each
/// other; with different years they never do.
pub proof fn law_titles_meet_whatever_their_case(candidate: Candidate<'_>, request: RevealRequest)
    requires
        candidate.title is Some,
        is_ascii(candidate.title->0@),
        same_ignoring_ascii_case(candidate.title->0@, request.title@),
        ascii_letters(candidate.title->0@).len() > 0,
    ensures
        title_hit(candidate, request) <==> !(request.year is Some && candidate.year is Some
            && request.year->0 != candidate.year->0),
{
    law_ascii_titles_fold_once(candidate.title->0@, request.title@);
}

} // verus!
