//! The Downloads (queue) view, shared by the Sonarr and Radarr tabs. The
//! selection state and the delete-prompt key routing are backend-agnostic:
//! they work off the queue plus a set of marked ids. Each app supplies only
//! the per-item name (and, for Sonarr, the episode code/title).

use std::collections::HashSet;
use vstd::prelude::*;
use vstd::std_specs::hash::*;
use vstd::string::*;

use crate::app::{KeyCode, KeyEvent};
use crate::apps::delete_prompt::{cancels, moves_down, moves_up};
use crate::arr::display::{
    first_name, quality_text, queue_language, queue_quality, queue_state_label, queue_timeleft,
    state_label, timeleft_text,
};
use crate::arr::models::QueueItem;
use crate::text::{
    decimal, is_text, join, joined, opt_text, push_decimal, push_opt, push_part, texts, with_opt,
    with_part,
};
use crate::ui::line::{span, Span, Tone};
use crate::ui::list::{last_of, smaller};
use crate::ui::rows::{
    detail_tone, gutter, gutter_span, inner_width, pair, width_within, Entry, EntryModel,
};
use crate::ui::text::{truncate, truncated};

verus! {

broadcast use group_hash_axioms;

/// The delete-downloads prompt: modal while set. Captures the target ids at
/// open time so a background queue poll can't shift what gets removed, and
/// carries the two server options the user toggles before committing.
pub struct DeletePrompt {
    pub ids: Vec<i64>,
    pub remove_from_client: bool,
    pub blocklist: bool,
    /// Which toggle is focused: 0 = remove from client, 1 = blocklist.
    pub focus: usize,
}

/// What routing a key through the open delete prompt resolved to.
#[derive(Debug)]
pub enum DeleteAction {
    /// Key consumed; nothing for the app to do.
    Consumed,
    /// The user cancelled; the prompt is now closed.
    Cancelled,
    /// The user committed; the app should issue the removal with these options.
    Commit { ids: Vec<i64>, remove_from_client: bool, blocklist: bool },
}

/// One row's per-item, backend-specific pieces. Radarr fills only `name`;
/// Sonarr also fills `code` (SxxExx) and `episode_title`.
#[derive(Debug, Default)]
pub struct DownloadRow {
    pub name: String,
    pub code: Option<String>,
    pub episode_title: Option<String>,
}

/// Selection + prompt state for the Downloads level. The app owns one of these
/// and drives it from its key handler, queue poll, and draw.
pub struct Downloads {
    pub cursor: usize,
    pub marks: HashSet<i64>,
    pub prompt: Option<DeletePrompt>,
}

/// An open prompt as values.
#[verifier::ext_equal]
pub struct PromptModel {
    pub ids: Seq<i64>,
    pub remove_from_client: bool,
    pub blocklist: bool,
    pub focus: usize,
}

/// The selection and prompt as values.
#[verifier::ext_equal]
pub struct DownloadsModel {
    pub cursor: usize,
    pub marks: Set<i64>,
    pub prompt: Option<PromptModel>,
}

/// What routing a key resolved to, as values.
#[verifier::ext_equal]
pub enum ActionModel {
    Consumed,
    Cancelled,
    Commit { ids: Seq<i64>, remove_from_client: bool, blocklist: bool },
}

impl View for DeletePrompt {
    type V = PromptModel;

    open spec fn view(&self) -> PromptModel {
        PromptModel {
            ids: self.ids@,
            remove_from_client: self.remove_from_client,
            blocklist: self.blocklist,
            focus: self.focus,
        }
    }
}

impl View for Downloads {
    type V = DownloadsModel;

    open spec fn view(&self) -> DownloadsModel {
        DownloadsModel {
            cursor: self.cursor,
            marks: self.marks@,
            prompt: match self.prompt {
                Some(prompt) => Some(prompt@),
                None => None,
            },
        }
    }
}

impl View for DeleteAction {
    type V = ActionModel;

    open spec fn view(&self) -> ActionModel {
        match self {
            DeleteAction::Consumed => ActionModel::Consumed,
            DeleteAction::Cancelled => ActionModel::Cancelled,
            DeleteAction::Commit { ids, remove_from_client, blocklist } => ActionModel::Commit {
                ids: ids@,
                remove_from_client: *remove_from_client,
                blocklist: *blocklist,
            },
        }
    }
}

/// The ids of the queue, in order.
pub open spec fn queue_ids(queue: Seq<QueueItem>) -> Seq<i64> {
    queue.map_values(|item: QueueItem| item.id)
}

/// The ids of a list that are in a set, in the order of the list.
pub open spec fn ids_in(ids: Seq<i64>, set: Set<i64>) -> Seq<i64>
    decreases ids.len(),
{
    if ids.len() == 0 {
        Seq::empty()
    } else if set.contains(ids.last()) {
        ids_in(ids.drop_last(), set).push(ids.last())
    } else {
        ids_in(ids.drop_last(), set)
    }
}

impl PromptModel {
    /// The prompt after a key that neither commits nor cancels.
    pub open spec fn after_key(self, code: KeyCode) -> PromptModel {
        if moves_up(code) {
            PromptModel { focus: 0, ..self }
        } else if moves_down(code) {
            PromptModel { focus: 1, ..self }
        } else if code == KeyCode::Char(' ') {
            if self.focus == 0 {
                PromptModel { remove_from_client: !self.remove_from_client, ..self }
            } else {
                PromptModel { blocklist: !self.blocklist, ..self }
            }
        } else {
            self
        }
    }
}

impl DownloadsModel {
    /// Nothing selected and no prompt open.
    pub open spec fn initial() -> DownloadsModel {
        DownloadsModel { cursor: 0, marks: Set::empty(), prompt: None }
    }

    /// An open prompt's focus is on one of its two toggles.
    pub open spec fn wf(self) -> bool {
        self.prompt is Some ==> self.prompt->0.focus <= 1
    }

    /// With the cursor on a row of a queue this long, or on the first.
    pub open spec fn clamped(self, len: nat) -> DownloadsModel {
        DownloadsModel {
            cursor: smaller(self.cursor as int, last_of(len as int)) as usize,
            ..self
        }
    }

    /// With the marks of downloads that left the queue dropped.
    pub open spec fn pruned(self, queue: Seq<i64>) -> DownloadsModel {
        DownloadsModel { marks: self.marks.filter(|id: i64| queue.contains(id)), ..self }
    }

    /// With the mark on the highlighted row flipped.
    pub open spec fn toggled(self, queue: Seq<i64>) -> DownloadsModel {
        if self.cursor < queue.len() {
            let id = queue[self.cursor as int];
            DownloadsModel {
                marks: if self.marks.contains(id) {
                    self.marks.remove(id)
                } else {
                    self.marks.insert(id)
                },
                ..self
            }
        } else {
            self
        }
    }

    /// The ids a removal is about: the marked ones still in the queue, in queue
    /// order, or the highlighted one when nothing is marked.
    pub open spec fn targets(self, queue: Seq<i64>) -> Seq<i64> {
        if self.marks.len() == 0 {
            if self.cursor < queue.len() {
                seq![queue[self.cursor as int]]
            } else {
                Seq::empty()
            }
        } else {
            ids_in(queue, self.marks)
        }
    }

    /// With the delete prompt open on the targets, if there are any.
    pub open spec fn deleting(self, queue: Seq<i64>) -> DownloadsModel {
        if self.targets(queue).len() == 0 {
            self
        } else {
            DownloadsModel {
                prompt: Some(
                    PromptModel {
                        ids: self.targets(queue),
                        remove_from_client: true,
                        blocklist: false,
                        focus: 0,
                    },
                ),
                ..self
            }
        }
    }

    /// After a key was routed to the prompt.
    pub open spec fn after_prompt_key(self, code: KeyCode) -> DownloadsModel {
        match self.prompt {
            None => self,
            Some(prompt) => if code == KeyCode::Enter || cancels(code) {
                DownloadsModel { prompt: None, ..self }
            } else {
                DownloadsModel { prompt: Some(prompt.after_key(code)), ..self }
            },
        }
    }

    /// What a key routed to the prompt resolves to.
    pub open spec fn prompt_action(self, code: KeyCode) -> ActionModel {
        match self.prompt {
            None => ActionModel::Consumed,
            Some(prompt) => if code == KeyCode::Enter {
                ActionModel::Commit {
                    ids: prompt.ids,
                    remove_from_client: prompt.remove_from_client,
                    blocklist: prompt.blocklist,
                }
            } else if cancels(code) {
                ActionModel::Cancelled
            } else {
                ActionModel::Consumed
            },
        }
    }
}

/// Flipping the mark on a row twice leaves the marks as they were.
pub proof fn law_toggling_twice_changes_nothing(d: DownloadsModel, queue: Seq<i64>)
    ensures
        d.toggled(queue).toggled(queue) == d,
{
    let id = queue[d.cursor as int];
    assert(d.toggled(queue).toggled(queue).marks =~= d.marks);
}

/// Ids are bounded numbers, so any set of them is finite.
proof fn lemma_ids_are_finite(ids: Set<i64>)
    ensures
        ids.finite(),
{
    let range = vstd::set_lib::set_int_range(i64::MIN as int, i64::MAX + 1);
    vstd::set_lib::lemma_int_range(i64::MIN as int, i64::MAX + 1);
    let all = range.map(|i: int| i as i64);
    range.lemma_map_finite(|i: int| i as i64);
    assert forall|id: i64| ids.contains(id) implies all.contains(id) by {
        assert(range.contains(id as int));
        assert((id as int) as i64 == id);
    }
    vstd::set_lib::lemma_len_subset(ids, all);
}

/// A toggle flips the mark on the highlighted row, so that one more or one less
/// is marked, and leaves every other mark, the cursor and the prompt as they
/// were; with no row under the cursor nothing changes.
pub proof fn law_toggling_flips_one_mark(d: DownloadsModel, queue: Seq<i64>, other: i64)
    ensures
        d.cursor >= queue.len() ==> d.toggled(queue) == d,
        d.cursor < queue.len() ==> {
            let id = queue[d.cursor as int];
            &&& d.toggled(queue).marks.contains(id) == !d.marks.contains(id)
            &&& d.toggled(queue).marks.len() == if d.marks.contains(id) {
                d.marks.len() - 1
            } else {
                d.marks.len() as int + 1
            }
            &&& other != id ==> d.toggled(queue).marks.contains(other) == d.marks.contains(other)
        },
        d.toggled(queue).cursor == d.cursor,
        d.toggled(queue).prompt == d.prompt,
        d.marks.finite(),
{
    lemma_ids_are_finite(d.marks);
}

/// Only downloads that are in the queue are removed.
pub proof fn law_targets_are_in_the_queue(d: DownloadsModel, queue: Seq<i64>, id: i64)
    requires
        d.targets(queue).contains(id),
    ensures
        queue.contains(id),
{
    if d.marks.len() == 0 {
        assert(queue[d.cursor as int] == id);
    } else {
        lemma_ids_in_members(queue, d.marks, id);
    }
}

/// With marks set, exactly the marked downloads of the queue are removed.
pub proof fn law_marked_downloads_are_the_targets(d: DownloadsModel, queue: Seq<i64>, id: i64)
    requires
        d.marks.len() > 0,
    ensures
        d.targets(queue).contains(id) <==> queue.contains(id) && d.marks.contains(id),
{
    lemma_ids_in_members(queue, d.marks, id);
}

proof fn lemma_ids_in_members(ids: Seq<i64>, set: Set<i64>, id: i64)
    ensures
        ids_in(ids, set).contains(id) <==> ids.contains(id) && set.contains(id),
    decreases ids.len(),
{
    if ids.len() > 0 {
        let before = ids.drop_last();
        lemma_ids_in_members(before, set, id);
        let kept = ids_in(ids, set);
        if before.contains(id) {
            let k = choose|k: int| 0 <= k < before.len() && before[k] == id;
            assert(ids[k] == id);
        }
        if ids.contains(id) {
            let k = choose|k: int| 0 <= k < ids.len() && ids[k] == id;
            if k < before.len() {
                assert(before[k] == id);
            }
        }
        if set.contains(ids.last()) {
            let inner = ids_in(before, set);
            assert(kept == inner.push(ids.last()));
            assert(kept[inner.len() as int] == ids.last());
            if inner.contains(id) {
                let k = choose|k: int| 0 <= k < inner.len() && inner[k] == id;
                assert(kept[k] == id);
            }
            if kept.contains(id) {
                let k = choose|k: int| 0 <= k < kept.len() && kept[k] == id;
                if k < inner.len() {
                    assert(inner[k] == id);
                } else {
                    assert(ids[ids.len() - 1] == id);
                }
            }
        }
    }
}

/// A prompt keeps its targets whatever happens to the queue meanwhile.
pub proof fn law_open_prompt_keeps_its_targets(d: DownloadsModel, queue: Seq<i64>, code: KeyCode)
    requires
        d.prompt is Some,
    ensures
        d.pruned(queue).prompt == d.prompt,
        d.after_prompt_key(code).prompt is Some ==> d.after_prompt_key(code).prompt->0.ids
            == d.prompt->0.ids,
        d.prompt_action(code) is Commit ==> d.prompt_action(code)->ids == d.prompt->0.ids,
{
}

impl Downloads {
    /// Nothing selected and no prompt open.
    pub fn new() -> (d: Downloads)
        ensures
            d@ == DownloadsModel::initial(),
    {
        Downloads { cursor: 0, marks: HashSet::new(), prompt: None }
    }

    /// Reset on entering or leaving the level.
    pub fn reset(&mut self)
        ensures
            final(self)@ == DownloadsModel::initial(),
    {
        self.cursor = 0;
        self.marks.clear();
        self.prompt = None;
    }

    pub fn marked(&self) -> (count: usize)
        ensures
            self@.marks.finite(),
            count == self@.marks.len(),
    {
        proof {
            lemma_ids_are_finite(self@.marks);
        }
        self.marks.len()
    }

    pub fn is_prompting(&self) -> (answer: bool)
        ensures
            answer == self@.prompt is Some,
    {
        self.prompt.is_some()
    }

    pub fn clear_marks(&mut self)
        ensures
            final(self)@ == (DownloadsModel { marks: Set::empty(), ..old(self)@ }),
    {
        self.marks.clear();
    }

    /// Keep the cursor in range; the background poll can shrink the queue.
    pub fn clamp(&mut self, len: usize)
        ensures
            final(self)@ == old(self)@.clamped(len as nat),
            len > 0 ==> final(self).cursor < len,
    {
        let last: usize = len.saturating_sub(1);
        if self.cursor > last {
            self.cursor = last;
        }
    }

    /// Drop marks for downloads that have left the queue, so the count and the
    /// empty-selection fallback stay honest.
    pub fn prune(&mut self, queue: &[QueueItem])
        ensures
            final(self)@ == old(self)@.pruned(queue_ids(queue@)),
    {
        let mut kept: HashSet<i64> = HashSet::new();
        let ghost ids = queue_ids(queue@);
        let mut i: usize = 0;
        while i < queue.len()
            invariant
                i <= queue@.len(),
                ids == queue_ids(queue@),
                self@ == old(self)@,
                forall|id: i64| #[trigger]
                    kept@.contains(id) <==> self.marks@.contains(id) && ids.take(i as int).contains(
                        id,
                    ),
            decreases queue@.len() - i,
        {
            let id: i64 = queue[i].id;
            let ghost before = kept@;
            if self.marks.contains(&id) {
                kept.insert(id);
            }
            proof {
                let (now, next) = (ids.take(i as int), ids.take(i + 1));
                assert(next =~= now.push(id));
                assert forall|x: i64| #[trigger] kept@.contains(x) <==> self.marks@.contains(x)
                    && next.contains(x) by {
                    assert(before.contains(x) <==> self.marks@.contains(x) && now.contains(x));
                    assert(next[i as int] == id);
                    if now.contains(x) {
                        let k = choose|k: int| 0 <= k < now.len() && now[k] == x;
                        assert(next[k] == x);
                    }
                    if next.contains(x) && x != id {
                        let k = choose|k: int| 0 <= k < next.len() && next[k] == x;
                        assert(now[k] == x);
                    }
                }
            }
            i += 1;
        }
        assert(ids.take(i as int) =~= ids);
        self.marks = kept;
        assert(self@ =~= old(self)@.pruned(ids));
    }

    /// Toggle the mark on the highlighted row.
    pub fn toggle_mark(&mut self, queue: &[QueueItem])
        ensures
            final(self)@ == old(self)@.toggled(queue_ids(queue@)),
            old(self).cursor < queue@.len() ==> final(self)@.marks.len() == (if old(
                self,
            )@.marks.contains(queue@[old(self).cursor as int].id) {
                old(self)@.marks.len() - 1
            } else {
                old(self)@.marks.len() as int + 1
            }),
    {
        proof {
            law_toggling_flips_one_mark(self@, queue_ids(queue@), 0);
        }
        if self.cursor < queue.len() {
            let id: i64 = queue[self.cursor].id;
            if self.marks.contains(&id) {
                self.marks.remove(&id);
            } else {
                self.marks.insert(id);
            }
        }
        assert(self@ =~= old(self)@.toggled(queue_ids(queue@)));
    }

    /// Open the delete prompt targeting the marked ids still in the queue, or
    /// the highlighted row when nothing is marked. A no-op on an empty queue.
    pub fn begin_delete(&mut self, queue: &[QueueItem])
        ensures
            final(self)@ == old(self)@.deleting(queue_ids(queue@)),
    {
        let ghost all = queue_ids(queue@);
        let mut ids: Vec<i64> = Vec::new();
        if self.marks.len() == 0 {
            if self.cursor < queue.len() {
                ids.push(queue[self.cursor].id);
            }
        } else {
            let mut i: usize = 0;
            while i < queue.len()
                invariant
                    i <= queue@.len(),
                    all == queue_ids(queue@),
                    self@ == old(self)@,
                    ids@ == ids_in(all.take(i as int), self.marks@),
                decreases queue@.len() - i,
            {
                assert(all.take(i + 1).drop_last() =~= all.take(i as int));
                let id: i64 = queue[i].id;
                if self.marks.contains(&id) {
                    ids.push(id);
                }
                i += 1;
            }
            assert(all.take(i as int) =~= all);
        }
        assert(ids@ =~= self@.targets(all));
        if ids.len() == 0 {
            return;
        }
        self.prompt = Some(
            DeletePrompt { ids, remove_from_client: true, blocklist: false, focus: 0 },
        );
        assert(self@ =~= old(self)@.deleting(all));
    }

    /// Route a key while the delete prompt is open. Returns what the app should
    /// do; `Commit` also closes the prompt.
    pub fn handle_prompt_key(&mut self, key: KeyEvent) -> (action: DeleteAction)
        requires
            old(self)@.wf(),
        ensures
            final(self)@ == old(self)@.after_prompt_key(key.code),
            action@ == old(self)@.prompt_action(key.code),
            final(self)@.wf(),
    {
        let Some(mut prompt) = self.prompt.take() else {
            return DeleteAction::Consumed;
        };
        match key.code {
            KeyCode::Up | KeyCode::Char('k') => {
                prompt.focus = prompt.focus.saturating_sub(1);
            },
            KeyCode::Down | KeyCode::Char('j') => {
                prompt.focus = if prompt.focus == 0 {
                    1
                } else {
                    prompt.focus
                };
            },
            KeyCode::Char(' ') => {
                if prompt.focus == 0 {
                    prompt.remove_from_client = !prompt.remove_from_client;
                } else {
                    prompt.blocklist = !prompt.blocklist;
                }
            },
            KeyCode::Enter => {
                return DeleteAction::Commit {
                    ids: prompt.ids,
                    remove_from_client: prompt.remove_from_client,
                    blocklist: prompt.blocklist,
                };
            },
            KeyCode::Esc | KeyCode::Char('q') => {
                return DeleteAction::Cancelled;
            },
            _ => {},
        }
        self.prompt = Some(prompt);
        DeleteAction::Consumed
    }

    /// The question the open prompt asks.
    pub fn question(&self) -> (text: Option<String>)
        ensures
            text is Some == self@.prompt is Some,
            text is Some ==> text->0@ == "Remove "@ + decimal(self@.prompt->0.ids.len())
                + " download(s)?"@,
    {
        match &self.prompt {
            Some(prompt) => {
                let mut text = "Remove ".to_owned();
                push_decimal(&mut text, prompt.ids.len() as u64);
                text.append(" download(s)?");
                Some(text)
            },
            None => None,
        }
    }
}

// The rows of the list.

/// The columns at the right of a row that its state takes.
pub const STATUS_WIDTH: u16 = 27;

/// A row's pieces as values.
pub struct RowModel {
    pub name: Seq<char>,
    pub code: Option<Seq<char>>,
    pub episode_title: Option<Seq<char>>,
}

impl View for DownloadRow {
    type V = RowModel;

    open spec fn view(&self) -> RowModel {
        RowModel {
            name: self.name@,
            code: opt_text(self.code),
            episode_title: opt_text(self.episode_title),
        }
    }
}

/// "[x] Show — S01E02".
pub open spec fn name_line(row: RowModel, marked: bool) -> Seq<char> {
    let name = (if marked {
        "[x] "@
    } else {
        "[ ] "@
    }) + row.name;
    match row.code {
        Some(code) => name + " — "@ + code,
        None => name,
    }
}

/// Episode title, language, quality and remaining time, as far as known.
pub open spec fn meta_line(row: RowModel, item: QueueItem) -> Seq<char> {
    let titled = with_opt(Seq::empty(), row.episode_title);
    let spoken = with_opt(titled, first_name(item.languages@));
    let graded = with_opt(spoken, quality_text(item.quality));
    joined(with_part(graded, timeleft_text(item)), " • "@)
}

/// The tone of a download's state, by what the server flags.
pub open spec fn state_tone(item: QueueItem) -> Tone {
    if opt_text(item.tracked_download_status) == Some("error"@) {
        Tone::Error
    } else if opt_text(item.tracked_download_status) == Some("warning"@) {
        Tone::AccentColor
    } else {
        Tone::AccentBright
    }
}

/// The columns of a row's title: what the state leaves, but at least four.
pub open spec fn title_columns(width: u16) -> nat {
    if inner_width(width, (STATUS_WIDTH + 6) as u16) > 4 {
        inner_width(width, (STATUS_WIDTH + 6) as u16)
    } else {
        4
    }
}

/// One download: its mark and name with its state at the right, and the line
/// of what is known of it below.
pub open spec fn download_entry(
    item: QueueItem,
    row: RowModel,
    selected: bool,
    marked: bool,
    width: u16,
) -> EntryModel {
    EntryModel {
        title: seq![
            gutter_span(selected),
            (
                truncated(name_line(row, marked), title_columns(width)),
                if selected {
                    Tone::AccentBold
                } else if marked {
                    Tone::AccentColor
                } else {
                    Tone::Fg
                },
            ),
        ],
        right: seq![(state_label(item), state_tone(item)), (" "@, Tone::Raw)],
        below: seq![
            seq![
                gutter_span(selected),
                (truncated(meta_line(row, item), inner_width(width, 6)), detail_tone(selected)),
            ],
        ],
    }
}

fn name_text(row: &DownloadRow, marked: bool) -> (text: String)
    ensures
        text@ == name_line(row@, marked),
{
    let mut text: String = if marked {
        "[x] ".to_owned()
    } else {
        "[ ] ".to_owned()
    };
    text.append(row.name.as_str());
    if let Some(code) = &row.code {
        text.append(" — ");
        text.append(code.as_str());
    }
    text
}

fn meta_text(row: &DownloadRow, item: &QueueItem) -> (text: String)
    ensures
        text@ == meta_line(row@, *item),
{
    let mut parts: Vec<String> = Vec::new();
    assert(texts(parts@) =~= Seq::empty());
    push_opt(&mut parts, row.episode_title.clone());
    push_opt(&mut parts, queue_language(item));
    push_opt(&mut parts, queue_quality(item));
    push_part(&mut parts, queue_timeleft(item));
    join(&parts, " • ")
}

impl Downloads {
    /// The row of a download. The caller resolves the backend-specific pieces.
    pub fn entry(&self, item: &QueueItem, row: &DownloadRow, selected: bool, width: u16) -> (entry:
        Entry)
        ensures
            entry@ == download_entry(
                *item,
                row@,
                selected,
                self@.marks.contains(item.id),
                width,
            ),
    {
        let marked: bool = self.marks.contains(&item.id);
        let tone: Tone = if selected {
            Tone::AccentBold
        } else if marked {
            Tone::AccentColor
        } else {
            Tone::Fg
        };
        let below_tone: Tone = if selected {
            Tone::AccentColor
        } else {
            Tone::Dim
        };
        let state_tone: Tone = if is_text(&item.tracked_download_status, "error") {
            Tone::Error
        } else if is_text(&item.tracked_download_status, "warning") {
            Tone::AccentColor
        } else {
            Tone::AccentBright
        };
        let left: usize = width_within(width, STATUS_WIDTH + 6);
        let title_width: usize = if left > 4 {
            left
        } else {
            4
        };
        let name: String = name_text(row, marked);
        let meta: String = meta_text(row, item);
        let mut below: Vec<Vec<Span>> = Vec::new();
        below.push(
            pair(
                gutter(selected),
                span(truncate(meta.as_str(), width_within(width, 6)), below_tone),
            ),
        );
        let entry = Entry {
            title: pair(gutter(selected), span(truncate(name.as_str(), title_width), tone)),
            right: pair(span(queue_state_label(item), state_tone), span(" ".to_owned(), Tone::Raw)),
            below,
        };
        assert(entry@.below =~= download_entry(*item, row@, selected, marked, width).below);
        entry
    }
}

impl Default for Downloads {
    fn default() -> (d: Self)
        ensures
            d@ == DownloadsModel::initial(),
    {
        Downloads::new()
    }
}

/// Without marks the highlighted download is the one that is removed.
pub proof fn law_without_marks_the_highlighted_is_the_target(s: DownloadsModel, queue: Seq<i64>)
    requires
        s.marks.len() == 0,
    ensures
        s.cursor < queue.len() ==> s.targets(queue) == seq![queue[s.cursor as int]],
        s.cursor >= queue.len() ==> s.targets(queue).len() == 0,
{
}

/// The prompt opens for what is to be deleted, takes it from the client too and
/// does not block it; enter commits to what its boxes say, and the blank flips
/// the box in focus.
pub proof fn law_prompts_commit_to_what_they_show(
    s: DownloadsModel,
    prompt: PromptModel,
    queue: Seq<i64>,
)
    requires
        s.prompt == Some(prompt),
        prompt.focus <= 1,
    ensures
        s.targets(queue).len() > 0 ==> s.deleting(queue).prompt == Some(
            (PromptModel {
                ids: s.targets(queue),
                remove_from_client: true,
                blocklist: false,
                focus: 0,
            }),
        ),
        s.targets(queue).len() == 0 ==> s.deleting(queue) == s,
        s.prompt_action(KeyCode::Enter) == (ActionModel::Commit {
            ids: prompt.ids,
            remove_from_client: prompt.remove_from_client,
            blocklist: prompt.blocklist,
        }),
        s.prompt_action(KeyCode::Esc) is Cancelled,
        s.after_prompt_key(KeyCode::Enter).prompt is None,
        s.after_prompt_key(KeyCode::Esc).prompt is None,
        ({
            let t = s.after_prompt_key(KeyCode::Char(' '));
            &&& t.prompt is Some
            &&& t.prompt->0.ids == prompt.ids
            &&& t.prompt->0.remove_from_client == (prompt.remove_from_client != (prompt.focus
                == 0))
            &&& t.prompt->0.blocklist == (prompt.blocklist != (prompt.focus == 1))
            &&& t.after_prompt_key(KeyCode::Char(' ')) == s
        }),
{
}

/// Downloads that have left the queue lose their mark, and no other does.
pub proof fn law_marks_follow_the_queue(s: DownloadsModel, queue: Seq<i64>, id: i64)
    ensures
        s.pruned(queue).marks.contains(id) <==> s.marks.contains(id) && queue.contains(id),
        s.pruned(queue).cursor == s.cursor,
{
}

} // verus!
