//! Presentation helpers shared by the Sonarr and Radarr screens: texts made
//! of queue items and releases.

use vstd::arithmetic::div_mod::{lemma_div_denominator, lemma_fundamental_div_mod};
use vstd::prelude::*;
use vstd::string::*;

use crate::arr::models::{HistoryRecord, Language, QualityWrapper, QueueItem, Release};
use crate::text::{
    blank, decimal, decimal_int, eq_ignoring_ascii_case, is_blank, is_text, join, joined, opt_text,
    push_decimal, push_int, push_opt, push_part, same_ignoring_ascii_case, same_text, text_or,
    texts, with_opt, with_part,
};

pub use crate::arr::calendar::{civil_from_days, epoch_to_iso, now_utc_iso};

verus! {

/// Row markers the Sonarr and Radarr lists render. Kept here as the single
/// source so the glyph a row draws and the glyph the help legend documents
/// cannot drift apart.
pub const GLYPH_DOWNLOADING: &'static str = "↓";

pub const GLYPH_REJECTED: &'static str = "!";

pub const GLYPH_GRABBED: &'static str = "✓";

/// The symbol legend, shown as its own labelled column in the expanded help so
/// the glyphs are explained without being mistaken for keybindings.
pub const SYMBOL_LEGEND: [(&'static str, &'static str); 3] = [
    ("↓", "downloading"),
    ("!", "rejected"),
    ("✓", "grabbed before"),
];

/// The first name in a list of languages.
pub open spec fn first_name(languages: Seq<Language>) -> Option<Seq<char>>
    decreases languages.len(),
{
    if languages.len() == 0 {
        None
    } else if languages[0].name is Some {
        Some(languages[0].name->0@)
    } else {
        first_name(languages.drop_first())
    }
}

/// The name inside a quality record.
pub open spec fn quality_text(quality: Option<QualityWrapper>) -> Option<Seq<char>> {
    match quality {
        Some(wrapper) => opt_text(wrapper.quality.name),
        None => None,
    }
}

/// The first name in a list of languages.
pub fn first_language(languages: &Vec<Language>) -> (name: Option<String>)
    ensures
        opt_text(name) == first_name(languages@),
{
    let mut i: usize = 0;
    assert(languages@.skip(0) =~= languages@);
    while i < languages.len()
        invariant
            i <= languages@.len(),
            first_name(languages@.skip(i as int)) == first_name(languages@),
        decreases languages@.len() - i,
    {
        if let Some(name) = &languages[i].name {
            return Some(name.clone());
        }
        assert(languages@.skip(i as int).drop_first() =~= languages@.skip(i + 1));
        i += 1;
    }
    None
}

/// The name inside a quality record.
pub fn quality_name(quality: &Option<QualityWrapper>) -> (name: Option<String>)
    ensures
        opt_text(name) == quality_text(*quality),
{
    match quality {
        Some(wrapper) => wrapper.quality.name.clone(),
        None => None,
    }
}

/// The first language name a queue item carries (mirrors `release_language`).
pub fn queue_language(item: &QueueItem) -> (name: Option<String>)
    ensures
        opt_text(name) == first_name(item.languages@),
{
    first_language(&item.languages)
}

/// The quality/format name a queue item was grabbed at, if any.
pub fn queue_quality(item: &QueueItem) -> (name: Option<String>)
    ensures
        opt_text(name) == quality_text(item.quality),
{
    quality_name(&item.quality)
}

/// The remaining time shown for a queue item.
pub open spec fn timeleft_text(item: QueueItem) -> Seq<char> {
    if item.timeleft is Some && !blank(item.timeleft->0@) {
        item.timeleft->0@
    } else {
        "-"@
    }
}

/// Remaining time as the server reports it ("HH:MM:SS" / "d.HH:MM:SS"), or a
/// dash when finished/stalled and no estimate is available.
pub fn queue_timeleft(item: &QueueItem) -> (text: String)
    ensures
        text@ == timeleft_text(*item),
{
    if let Some(value) = &item.timeleft {
        if !is_blank(value.as_str()) {
            return value.clone();
        }
    }
    "-".to_owned()
}

/// The state a queue item is in: its lifecycle stage, else its status, else
/// "queued".
pub open spec fn raw_state(item: QueueItem) -> Seq<char> {
    if item.tracked_download_state is Some {
        item.tracked_download_state->0@
    } else if item.status is Some {
        item.status->0@
    } else {
        "queued"@
    }
}

/// A state in plain words: multi-word camelCase states are spelled out,
/// readable ones stay.
pub open spec fn plain_state(raw: Seq<char>) -> Seq<char> {
    if raw == "importPending"@ {
        "import pending"@
    } else if raw == "failedPending"@ {
        "failed"@
    } else if raw == "downloadClientUnavailable"@ {
        "client unavailable"@
    } else if raw == "delay"@ {
        "delayed"@
    } else {
        raw
    }
}

/// The status text of a queue item.
pub open spec fn state_label(item: QueueItem) -> Seq<char> {
    let raw = raw_state(item);
    let label = if same_ignoring_ascii_case(raw, "downloading"@) {
        plain_state(raw) + " "@ + decimal(item.progress as nat) + "%"@
    } else {
        plain_state(raw)
    };
    if opt_text(item.tracked_download_status) == Some("warning"@) {
        label + " (warning)"@
    } else if opt_text(item.tracked_download_status) == Some("error"@) {
        label + " (error)"@
    } else {
        label
    }
}

fn spell_state(raw: &str) -> (pretty: String)
    ensures
        pretty@ == plain_state(raw@),
{
    if same_text(raw, "importPending") {
        "import pending".to_owned()
    } else if same_text(raw, "failedPending") {
        "failed".to_owned()
    } else if same_text(raw, "downloadClientUnavailable") {
        "client unavailable".to_owned()
    } else if same_text(raw, "delay") {
        "delayed".to_owned()
    } else {
        raw.to_owned()
    }
}

/// A short status for the Downloads view: the download lifecycle state, with
/// the percent appended while still downloading and a marker when the server
/// flags a warning or error.
pub fn queue_state_label(item: &QueueItem) -> (label: String)
    ensures
        label@ == state_label(*item),
{
    let raw: String = match &item.tracked_download_state {
        Some(state) => state.clone(),
        None => text_or(&item.status, "queued"),
    };
    let mut label: String = spell_state(raw.as_str());
    if eq_ignoring_ascii_case(raw.as_str(), "downloading") {
        label.append(" ");
        push_decimal(&mut label, item.progress as u64);
        label.append("%");
    }
    if is_text(&item.tracked_download_status, "warning") {
        label.append(" (warning)");
    } else if is_text(&item.tracked_download_status, "error") {
        label.append(" (error)");
    }
    label
}

/// A year in decimal.
pub open spec fn year_text(year: Option<i32>) -> Option<Seq<char>> {
    match year {
        Some(year) => Some(decimal_int(year as int)),
        None => None,
    }
}

/// A year in decimal.
pub fn year_label(year: Option<i32>) -> (label: Option<String>)
    ensures
        opt_text(label) == year_text(year),
{
    match year {
        Some(year) => {
            let mut label: String = String::new();
            push_int(&mut label, year as i64);
            assert(label@ =~= decimal_int(year as int));
            Some(label)
        },
        None => None,
    }
}

// Sizes.

pub const KIB: u64 = 1024;

pub const MIB: u64 = 1_048_576;

pub const GIB: u64 = 1_073_741_824;

/// The quotient rounded to the nearest whole number, a tie to the even one.
pub open spec fn half_even(n: nat, d: nat) -> nat {
    let q = n / d;
    let r = n % d;
    if 2 * r < d || (2 * r == d && q % 2 == 0) {
        q
    } else {
        q + 1
    }
}

/// The step between neighbouring double-precision numbers at a byte count.
pub open spec fn double_step(bytes: nat) -> nat
    decreases bytes,
{
    if bytes < 9_007_199_254_740_992 {
        1
    } else {
        2 * double_step(bytes / 2)
    }
}

/// The double-precision number nearest to a byte count.
pub open spec fn nearest_double(bytes: nat) -> nat {
    half_even(bytes, double_step(bytes)) * double_step(bytes)
}

/// A byte count in a unit, with one decimal.
pub open spec fn in_unit(bytes: nat, unit: nat) -> Seq<char> {
    let tenths = half_even(10 * bytes, unit);
    decimal(tenths / 10) + "."@ + decimal(tenths % 10)
}

/// A size in the largest binary unit that it fills, rounded like a
/// double-precision number printed with one decimal.
pub open spec fn size_text(bytes: int) -> Seq<char> {
    let b = nearest_double(if bytes < 0 { 0 } else { bytes as nat });
    if b >= GIB {
        in_unit(b, GIB as nat) + " GiB"@
    } else if b >= MIB {
        in_unit(b, MIB as nat) + " MiB"@
    } else if b >= KIB {
        in_unit(b, KIB as nat) + " KiB"@
    } else {
        decimal(b) + " B"@
    }
}

fn round_half_even(n: u128, d: u128) -> (q: u128)
    requires
        0 < d <= 1_073_741_824,
        n <= 100_000_000_000_000_000_000,
    ensures
        q == half_even(n as nat, d as nat),
        q <= n + 1,
{
    let q: u128 = n / d;
    let r: u128 = n % d;
    proof {
        lemma_fundamental_div_mod(n as int, d as int);
        vstd::arithmetic::div_mod::lemma_div_is_ordered_by_denominator(n as int, 1, d as int);
    }
    if 2 * r < d || (2 * r == d && q % 2 == 0) {
        q
    } else {
        q + 1
    }
}

fn to_nearest_double(bytes: u64) -> (b: u128)
    requires
        bytes <= i64::MAX,
    ensures
        b == nearest_double(bytes as nat),
        b <= 9_223_372_036_854_780_000,
{
    let mut step: u64 = 1;
    let mut rest: u64 = bytes;
    while rest >= 9_007_199_254_740_992
        invariant
            1 <= step <= 2048,
            bytes <= i64::MAX,
            rest == bytes as int / step as int,
            double_step(bytes as nat) == step * double_step(rest as nat),
        decreases rest,
    {
        proof {
            lemma_fundamental_div_mod(bytes as int, step as int);
            assert(step <= 1024) by (nonlinear_arith)
                requires
                    step * rest <= bytes,
                    bytes <= i64::MAX,
                    rest >= 9_007_199_254_740_992,
            ;
            lemma_div_denominator(bytes as int, step as int, 2);
            let inner = double_step((rest / 2) as nat) as int;
            assert(step * (2 * inner) == (step * 2) * inner) by (nonlinear_arith);
        }
        step = step * 2;
        rest = rest / 2;
    }
    proof {
        assert(double_step(rest as nat) == 1);
        assert(step * 1 == step) by (nonlinear_arith);
    }
    let units: u128 = round_half_even(bytes as u128, step as u128);
    proof {
        let (n, d) = (bytes as int, step as int);
        lemma_fundamental_div_mod(n, d);
        assert(units * step <= n + d) by (nonlinear_arith)
            requires
                units <= rest + 1,
                step == d,
                d * rest <= n,
                d > 0,
        ;
    }
    units * (step as u128)
}

fn push_in_unit(out: &mut String, bytes: u128, unit: u64)
    requires
        KIB <= unit <= GIB,
        bytes <= 9_223_372_036_854_780_000,
    ensures
        final(out)@ == old(out)@ + in_unit(bytes as nat, unit as nat),
{
    let tenths: u128 = round_half_even(10 * bytes, unit as u128);
    proof {
        vstd::arithmetic::div_mod::lemma_div_is_ordered_by_denominator(
            10 * bytes as int,
            1024,
            unit as int,
        );
    }
    let ghost before = out@;
    push_decimal(out, (tenths / 10) as u64);
    out.append(".");
    push_decimal(out, (tenths % 10) as u64);
    assert(out@ =~= before + in_unit(bytes as nat, unit as nat));
}

/// A size in binary units with one decimal; a negative size counts as none.
pub fn format_size(bytes: i64) -> (text: String)
    ensures
        text@ == size_text(bytes as int),
{
    let b: u128 = to_nearest_double(
        if bytes < 0 {
            0
        } else {
            bytes as u64
        },
    );
    let mut text = String::new();
    if b >= GIB as u128 {
        push_in_unit(&mut text, b, GIB);
        text.append(" GiB");
    } else if b >= MIB as u128 {
        push_in_unit(&mut text, b, MIB);
        text.append(" MiB");
    } else if b >= KIB as u128 {
        push_in_unit(&mut text, b, KIB);
        text.append(" KiB");
    } else {
        push_decimal(&mut text, b as u64);
        text.append(" B");
    }
    assert(text@ =~= size_text(bytes as int));
    text
}

/// An age in days; a negative one counts as none.
pub open spec fn age_text(age: int) -> Seq<char> {
    decimal(if age < 0 { 0 } else { age as nat }) + "d"@
}

pub fn format_age_days(age: i64) -> (text: String)
    ensures
        text@ == age_text(age as int),
{
    let mut text = String::new();
    push_decimal(
        &mut text,
        if age < 0 {
            0
        } else {
            age as u64
        },
    );
    text.append("d");
    assert(text@ =~= age_text(age as int));
    text
}

// Releases.

/// The language shown for a release: the first one named in its list, else
/// its single one.
pub open spec fn release_language_text(release: Release) -> Option<Seq<char>> {
    match first_name(release.languages@) {
        Some(name) => Some(name),
        None => match release.language {
            Some(language) => opt_text(language.name),
            None => None,
        },
    }
}

/// The first language name a release carries; newer servers send a list,
/// older ones a single object, so both fields are consulted.
pub fn release_language(release: &Release) -> (name: Option<String>)
    ensures
        opt_text(name) == release_language_text(*release),
{
    let listed: Option<String> = first_language(&release.languages);
    if listed.is_some() {
        return listed;
    }
    match &release.language {
        Some(language) => language.name.clone(),
        None => None,
    }
}

/// The seeders and leechers of a torrent.
pub open spec fn swarm_text(release: Release) -> Seq<char> {
    let up = match release.seeders {
        Some(n) => n as int,
        None => 0,
    };
    let down = match release.leechers {
        Some(n) => n as int,
        None => 0,
    };
    "↑"@ + decimal_int(up) + " ↓"@ + decimal_int(down)
}

/// The parts of a release's metadata line, in order, the empty ones left out.
pub open spec fn release_parts(release: Release) -> Seq<Seq<char>> {
    let indexer = match release.indexer {
        Some(name) => name@,
        None => Seq::empty(),
    };
    let head = with_part(
        with_part(with_part(Seq::empty(), age_text(release.age as int)), indexer),
        size_text(release.size as int),
    );
    let swarm = if opt_text(release.protocol) == Some("torrent"@) {
        with_part(head, swarm_text(release))
    } else {
        head
    };
    with_opt(with_opt(swarm, release_language_text(release)), quality_text(release.quality))
}

fn swarm(release: &Release) -> (text: String)
    ensures
        text@ == swarm_text(*release),
{
    let mut text: String = "↑".to_owned();
    push_int(
        &mut text,
        match release.seeders {
            Some(n) => n as i64,
            None => 0,
        },
    );
    text.append(" ↓");
    push_int(
        &mut text,
        match release.leechers {
            Some(n) => n as i64,
            None => 0,
        },
    );
    text
}

/// The metadata line under a release title. Rejection/grabbed markers are
/// spans the caller appends, not part of this string.
pub fn release_line2(release: &Release) -> (line: String)
    ensures
        line@ == joined(release_parts(*release), " • "@),
{
    let mut parts: Vec<String> = Vec::new();
    assert(texts(parts@) =~= Seq::empty());
    push_part(&mut parts, format_age_days(release.age));
    push_part(&mut parts, text_or(&release.indexer, ""));
    proof {
        reveal_strlit("");
        assert(""@ =~= Seq::<char>::empty());
    }
    push_part(&mut parts, format_size(release.size));
    if is_text(&release.protocol, "torrent") {
        push_part(&mut parts, swarm(release));
    }
    push_opt(&mut parts, release_language(release));
    push_opt(&mut parts, quality_name(&release.quality));
    join(&parts, " • ")
}

/// Whether a history record is about this release: the guid it recorded, or
/// the title it was recorded under.
pub open spec fn records(record: HistoryRecord, release: Release) -> bool {
    opt_text(record.guid) == Some(release.guid@) || (release.title is Some && opt_text(
        record.source_title,
    ) == opt_text(release.title))
}

/// Whether this exact release was grabbed or imported before (the server
/// keeps the history even after the file is deleted). Matched by the guid a
/// grabbed event records, falling back to the release title.
pub fn previously_grabbed(history: &[HistoryRecord], release: &Release) -> (answer: bool)
    ensures
        answer == exists|i: int| 0 <= i < history@.len() && records(#[trigger] history@[i], *release),
{
    let mut i: usize = 0;
    while i < history.len()
        invariant
            i <= history@.len(),
            forall|j: int| 0 <= j < i ==> !records(#[trigger] history@[j], *release),
        decreases history@.len() - i,
    {
        if is_text(&history[i].guid, release.guid.as_str()) {
            assert(records(history@[i as int], *release));
            return true;
        }
        if let Some(title) = &release.title {
            if is_text(&history[i].source_title, title.as_str()) {
                assert(records(history@[i as int], *release));
                return true;
            }
        }
        i += 1;
    }
    false
}

/// The language shown for a release is the first one with a name that it lists,
/// or its single one where it lists none.
pub proof fn law_the_first_named_language_is_shown(languages: Seq<Language>)
    ensures
        match first_name(languages) {
            Some(name) => exists|i: int|
                #![trigger languages[i]]
                0 <= i < languages.len() && languages[i].name is Some && languages[i].name->0@
                    == name && forall|j: int|
                    0 <= j < i ==> (#[trigger] languages[j]).name is None,
            None => forall|i: int|
                0 <= i < languages.len() ==> (#[trigger] languages[i]).name is None,
        },
    decreases languages.len(),
{
    if languages.len() > 0 && languages[0].name is None {
        let rest = languages.drop_first();
        law_the_first_named_language_is_shown(rest);
        if first_name(rest) is Some {
            let i = choose|i: int|
                #![trigger rest[i]]
                0 <= i < rest.len() && rest[i].name is Some && rest[i].name->0@ == first_name(
                    rest,
                )->0 && forall|j: int| 0 <= j < i ==> (#[trigger] rest[j]).name is None;
            assert(languages[i + 1] == rest[i]);
            assert forall|j: int| 0 <= j < i + 1 implies (#[trigger] languages[j]).name is None by {
                if j > 0 {
                    assert(rest[j - 1] == languages[j]);
                }
            }
        } else {
            assert forall|j: int| 0 <= j < languages.len() implies (
            #[trigger] languages[j]).name is None by {
                if j > 0 {
                    assert(rest[j - 1] == languages[j]);
                }
            }
        }
    }
}

/// The state of a download is what is tracked of it, else its status, else that
/// it is queued; a warning or an error is added behind it.
pub proof fn law_the_tracked_state_is_shown(item: QueueItem)
    ensures
        item.tracked_download_state is Some ==> raw_state(item)
            == item.tracked_download_state->0@,
        item.tracked_download_state is None && item.status is Some ==> raw_state(item)
            == item.status->0@,
        item.tracked_download_state is None && item.status is None ==> raw_state(item)
            == "queued"@,
        opt_text(item.tracked_download_status) == Some("warning"@) ==> exists|state: Seq<char>|
            state_label(item) == #[trigger] (state + " (warning)"@),
        opt_text(item.tracked_download_status) == Some("error"@) ==> exists|state: Seq<char>|
            state_label(item) == #[trigger] (state + " (error)"@),
        raw_state(item) == "downloading"@ && item.tracked_download_status is None
            ==> state_label(item) == "downloading "@ + decimal(item.progress as nat) + "%"@,
{
    reveal_strlit("warning");
    reveal_strlit("error");
    reveal_strlit("downloading");
    reveal_strlit("downloading ");
    reveal_strlit(" ");
    reveal_strlit("importPending");
    reveal_strlit("failedPending");
    reveal_strlit("downloadClientUnavailable");
    reveal_strlit("delay");
    let raw = raw_state(item);
    assert("warning"@.len() != "error"@.len());
    if raw == "downloading"@ {
        assert(raw.len() == 11);
        assert("importPending"@.len() == 13);
        assert("failedPending"@.len() == 13);
        assert("downloadClientUnavailable"@.len() == 25);
        assert("delay"@.len() == 5);
        assert(plain_state(raw) == raw);
        assert("downloading"@ + " "@ =~= "downloading "@);
    }
    let label = if same_ignoring_ascii_case(raw, "downloading"@) {
        plain_state(raw) + " "@ + decimal(item.progress as nat) + "%"@
    } else {
        plain_state(raw)
    };
    if opt_text(item.tracked_download_status) == Some("warning"@) {
        assert(state_label(item) == label + " (warning)"@);
    }
    if opt_text(item.tracked_download_status) == Some("error"@) {
        assert(state_label(item) == label + " (error)"@);
    }
}

/// Rounding goes to the nearest whole, and to the even one from the middle.
pub proof fn law_rounding_goes_to_the_nearest(n: nat, d: nat)
    requires
        d > 0,
    ensures
        2 * n - d <= 2 * (half_even(n, d) * d) <= 2 * n + d,
        2 * (half_even(n, d) * d) == 2 * n - d || 2 * (half_even(n, d) * d) == 2 * n + d
            ==> half_even(n, d) % 2 == 0,
{
    let q = n / d;
    let r = n % d;
    vstd::arithmetic::div_mod::lemma_fundamental_div_mod(n as int, d as int);
    assert(d * q == q * d) by (nonlinear_arith);
    assert((q + 1) * d == q * d + d) by (nonlinear_arith);
}

/// A grabbed release is known by its guid or, where it has one, by its title.
pub proof fn law_grabs_are_known_by_guid_or_title(record: HistoryRecord, release: Release)
    ensures
        record.guid is Some && record.guid->0@ == release.guid@ ==> records(record, release),
        record.source_title is Some && release.title is Some && record.source_title->0@
            == release.title->0@ ==> records(record, release),
        records(record, release) ==> (record.guid is Some && record.guid->0@ == release.guid@) || (
        record.source_title is Some && release.title is Some && record.source_title->0@
            == release.title->0@),
{
}

} // verus!
