//! Background auto-search monitors, shared by the Radarr and Sonarr browse
//! screens.
//!
//! Adding a movie or series with "Search & download now?" only creates the
//! library record; the search runs as a tracked server command. A [`Monitor`]
//! follows one such command: it is polled to completion and its outcome
//! confirmed against the download queue, so the user learns whether a release
//! was grabbed. Each monitor runs on its own generation, so it survives
//! leaving the view that started it.

use std::collections::HashSet;
use vstd::prelude::*;
use vstd::std_specs::hash::*;
use vstd::string::*;

use crate::arr::models::Command;
use crate::arr::Error;
use crate::text::{decimal, opt_str, opt_text, push_decimal, same_text};
use crate::ui::line::{shown, span, Span, Tone};

verus! {

broadcast use group_hash_axioms;

/// Command-status poll cadence, in 250ms ticks (~2s). Also the re-check
/// cadence while confirming the outcome against the queue.
pub const POLL_TICKS: u32 = 8;

/// How long to keep re-checking the queue after the search command completes
/// before concluding nothing was grabbed (~6s).
pub const CONFIRM_GRACE_TICKS: u32 = 24;

/// How long a finished monitor's message lingers before it clears (~8s).
pub const CLEAR_TICKS: u32 = 32;

/// Overall safety cap (~180s): a command stuck in `queued`/`started` can't
/// keep a monitor alive forever.
pub const TIMEOUT_TICKS: u32 = 720;

/// How a search ended.
#[derive(Debug, Clone, Copy, PartialEq, Eq, Structural)]
pub enum Outcome {
    /// The command could not be created, or ended without completing.
    Failed,
    /// The command never completed.
    TimedOut,
    /// This many new downloads are in the queue.
    Grabbed(usize),
    /// The command completed and no download showed up.
    NothingFound,
}

/// Where a monitor is in its lifecycle.
#[derive(Debug, Clone, Copy, PartialEq, Eq, Structural)]
pub enum Phase {
    /// Waiting for the tracked command to be created (its id is not known yet).
    Starting,
    /// Command created; polling its status until it completes.
    Searching,
    /// Command completed; checking the queue for a freshly grabbed release.
    Confirming,
    /// Terminal; the outcome is shown until the clear deadline.
    Done(Outcome),
}

/// The side effect a [`tick`](Monitor::tick) asks the owning browse to perform.
#[derive(Debug, Clone, Copy, PartialEq, Eq, Structural)]
pub enum TickAction {
    /// Nothing to do this tick.
    Idle,
    /// Poll this command id for its status.
    Poll(i64),
    /// Refresh the download queue (a confirming re-check).
    FetchQueue,
    /// The monitor has expired; the owner should drop it.
    Drop,
}

/// One tracked auto-search for a just-added movie or series.
pub struct Monitor {
    /// Matched against incoming auto-search results; unique across browse
    /// instances.
    pub generation: u64,
    /// The added movie/series id, used to match its queue items.
    pub target_id: i64,
    pub title: String,
    pub command_id: Option<i64>,
    /// Queue item ids already present for `target_id` when the search started,
    /// so a pre-existing download isn't mistaken for this search's result.
    pub baseline: HashSet<i64>,
    pub phase: Phase,
    /// Ticks since creation, for the overall timeout.
    pub age_ticks: u32,
    /// Ticks since entering the current phase, for poll cadence / grace / clear.
    pub phase_ticks: u32,
    /// A status poll is in flight; polls never overlap.
    pub poll_inflight: bool,
}

/// A monitor as values.
#[verifier::ext_equal]
pub struct MonitorModel {
    pub generation: u64,
    pub target_id: i64,
    pub title: Seq<char>,
    pub command_id: Option<i64>,
    pub baseline: Set<i64>,
    pub phase: Phase,
    pub age_ticks: u32,
    pub phase_ticks: u32,
    pub poll_inflight: bool,
}

impl View for Monitor {
    type V = MonitorModel;

    open spec fn view(&self) -> MonitorModel {
        MonitorModel {
            generation: self.generation,
            target_id: self.target_id,
            title: self.title@,
            command_id: self.command_id,
            baseline: self.baseline@,
            phase: self.phase,
            age_ticks: self.age_ticks,
            phase_ticks: self.phase_ticks,
            poll_inflight: self.poll_inflight,
        }
    }
}

/// Monitors as values.
pub open spec fn monitors_view(monitors: Seq<Monitor>) -> Seq<MonitorModel> {
    monitors.map_values(|m: Monitor| m@)
}

/// One tick more, up to the largest count.
pub open spec fn tick_after(ticks: u32) -> u32 {
    if ticks == u32::MAX {
        ticks
    } else {
        (ticks + 1) as u32
    }
}

/// What a status reply says of the command.
pub open spec fn reports_completed(status: Option<Seq<char>>) -> bool {
    status == Some("completed"@)
}

/// What a status reply says of the command.
pub open spec fn reports_failure(status: Option<Seq<char>>) -> bool {
    status == Some("failed"@) || status == Some("aborted"@) || status == Some("cancelled"@)
}

/// The characters of an optional slice.
pub open spec fn slice_text(status: Option<&str>) -> Option<Seq<char>> {
    match status {
        Some(s) => Some(s@),
        None => None,
    }
}

impl MonitorModel {
    /// Not yet in a terminal state.
    pub open spec fn active(self) -> bool {
        !(self.phase is Done)
    }

    /// The monitor having just entered a phase.
    pub open spec fn entering(self, phase: Phase) -> MonitorModel {
        MonitorModel { phase, phase_ticks: 0, ..self }
    }

    /// The monitor once its command is known.
    pub open spec fn after_started(self, command_id: i64) -> MonitorModel {
        if self.phase is Starting {
            (MonitorModel { command_id: Some(command_id), ..self }).entering(Phase::Searching)
        } else {
            self
        }
    }

    /// The monitor once a status reply is in.
    pub open spec fn after_polled(self, status: Option<Seq<char>>) -> MonitorModel {
        let landed = MonitorModel { poll_inflight: false, ..self };
        if !(self.phase is Searching) {
            landed
        } else if reports_completed(status) {
            landed.entering(Phase::Confirming)
        } else if reports_failure(status) {
            landed.entering(Phase::Done(Outcome::Failed))
        } else {
            landed
        }
    }

    /// Whether a status reply ends the search, so that its outcome can be
    /// confirmed against the queue.
    pub open spec fn completes(self, status: Option<Seq<char>>) -> bool {
        self.phase is Searching && reports_completed(status)
    }

    /// The monitor of a search that failed.
    pub open spec fn failed(self) -> MonitorModel {
        self.entering(Phase::Done(Outcome::Failed))
    }

    /// The monitor one tick older, before the tick is acted on.
    pub open spec fn aged(self) -> MonitorModel {
        MonitorModel {
            age_ticks: tick_after(self.age_ticks),
            phase_ticks: tick_after(self.phase_ticks),
            ..self
        }
    }

    /// The monitor after a tick, with what the tick asks for.
    pub open spec fn after_tick(self, new_items: usize) -> (MonitorModel, TickAction) {
        let m = self.aged();
        let on_cadence = m.phase_ticks as int % POLL_TICKS as int == 0;
        if (m.phase is Starting || m.phase is Searching) && m.age_ticks >= TIMEOUT_TICKS {
            (m.entering(Phase::Done(Outcome::TimedOut)), TickAction::Idle)
        } else {
            match m.phase {
                Phase::Starting => (m, TickAction::Idle),
                Phase::Searching => if m.command_id is Some && !m.poll_inflight && on_cadence {
                    (MonitorModel { poll_inflight: true, ..m }, TickAction::Poll(m.command_id->0))
                } else {
                    (m, TickAction::Idle)
                },
                Phase::Confirming => if new_items >= 1 {
                    (m.entering(Phase::Done(Outcome::Grabbed(new_items))), TickAction::Idle)
                } else if m.phase_ticks >= CONFIRM_GRACE_TICKS {
                    (m.entering(Phase::Done(Outcome::NothingFound)), TickAction::Idle)
                } else if on_cadence {
                    (m, TickAction::FetchQueue)
                } else {
                    (m, TickAction::Idle)
                },
                Phase::Done(_) => if m.phase_ticks >= CLEAR_TICKS {
                    (m, TickAction::Drop)
                } else {
                    (m, TickAction::Idle)
                },
            }
        }
    }

    /// The message shown for an outcome of this search.
    pub open spec fn outcome_text(self, outcome: Outcome) -> Seq<char> {
        match outcome {
            Outcome::Failed => "search failed for "@ + self.title,
            Outcome::TimedOut => self.title + ": search timed out, check the queue"@,
            Outcome::Grabbed(count) => if count == 1 {
                self.title + " added to queue"@
            } else {
                self.title + ": "@ + decimal(count as nat) + " downloads added"@
            },
            Outcome::NothingFound => "no releases found yet for "@ + self.title,
        }
    }

    /// A monitor whose command is yet to be created.
    pub open spec fn starting(
        generation: u64,
        target_id: i64,
        title: Seq<char>,
        baseline: Set<i64>,
    ) -> MonitorModel {
        MonitorModel {
            generation,
            target_id,
            title,
            command_id: None,
            baseline,
            phase: Phase::Starting,
            age_ticks: 0,
            phase_ticks: 0,
            poll_inflight: false,
        }
    }
}

impl Monitor {
    pub fn new(generation: u64, target_id: i64, title: String, baseline: HashSet<i64>) -> (m: Self)
        ensures
            m@ == MonitorModel::starting(generation, target_id, title@, baseline@),
    {
        Monitor {
            generation,
            target_id,
            title,
            command_id: None,
            baseline,
            phase: Phase::Starting,
            age_ticks: 0,
            phase_ticks: 0,
            poll_inflight: false,
        }
    }

    /// True if the queue item with this id was already present when the search
    /// started (so it is not attributable to this search).
    pub fn is_baseline(&self, queue_item_id: i64) -> (answer: bool)
        ensures
            answer == self@.baseline.contains(queue_item_id),
    {
        self.baseline.contains(&queue_item_id)
    }

    /// Not yet in a terminal state.
    pub fn is_active(&self) -> (answer: bool)
        ensures
            answer == self@.active(),
    {
        !matches!(self.phase, Phase::Done(_))
    }

    /// The tracked command was created: start polling it.
    pub fn started(&mut self, command_id: i64)
        ensures
            final(self)@ == old(self)@.after_started(command_id),
    {
        if matches!(self.phase, Phase::Starting) {
            self.command_id = Some(command_id);
            self.enter(Phase::Searching);
        }
    }

    /// The tracked command could not be created: terminal failure.
    pub fn failed_to_start(&mut self)
        ensures
            final(self)@ == old(self)@.failed(),
    {
        self.enter(Phase::Done(Outcome::Failed));
    }

    /// A status poll landed. Returns true if the command completed (so the
    /// owner should refresh the queue to confirm the outcome now).
    pub fn polled(&mut self, status: Option<&str>) -> (completed: bool)
        ensures
            final(self)@ == old(self)@.after_polled(slice_text(status)),
            completed == old(self)@.completes(slice_text(status)),
    {
        self.poll_inflight = false;
        if !matches!(self.phase, Phase::Searching) {
            return false;
        }
        let Some(status) = status else {
            return false;
        };
        if same_text(status, "completed") {
            self.enter(Phase::Confirming);
            true
        } else {
            if same_text(status, "failed") || same_text(status, "aborted") || same_text(
                status,
                "cancelled",
            ) {
                self.enter(Phase::Done(Outcome::Failed));
            }
            false
        }
    }

    /// Clear the in-flight flag after a poll that errored transiently, so the
    /// next cadence tick retries (the overall timeout backs this up).
    pub fn clear_poll_inflight(&mut self)
        ensures
            final(self)@ == (MonitorModel { poll_inflight: false, ..old(self)@ }),
    {
        self.poll_inflight = false;
    }

    /// Advance one 250ms tick. `new_items` is how many queue items for this
    /// target were not present when the search started. Returns the side
    /// effect to run.
    pub fn tick(&mut self, new_items: usize) -> (action: TickAction)
        ensures
            (final(self)@, action) == old(self)@.after_tick(new_items),
    {
        self.age_ticks = self.age_ticks.saturating_add(1);
        self.phase_ticks = self.phase_ticks.saturating_add(1);
        // Only time out while still waiting on the command; Confirming is
        // already bounded by the grace window.
        if matches!(self.phase, Phase::Starting | Phase::Searching) && self.age_ticks
            >= TIMEOUT_TICKS {
            self.enter(Phase::Done(Outcome::TimedOut));
            return TickAction::Idle;
        }
        match self.phase {
            Phase::Starting => TickAction::Idle,
            Phase::Searching => match self.command_id {
                Some(id) => if !self.poll_inflight && self.phase_ticks % POLL_TICKS == 0 {
                    self.poll_inflight = true;
                    TickAction::Poll(id)
                } else {
                    TickAction::Idle
                },
                None => TickAction::Idle,
            },
            Phase::Confirming => {
                if new_items >= 1 {
                    self.enter(Phase::Done(Outcome::Grabbed(new_items)));
                    TickAction::Idle
                } else if self.phase_ticks >= CONFIRM_GRACE_TICKS {
                    // A slow or late grab could still land.
                    self.enter(Phase::Done(Outcome::NothingFound));
                    TickAction::Idle
                } else if self.phase_ticks % POLL_TICKS == 0 {
                    TickAction::FetchQueue
                } else {
                    TickAction::Idle
                }
            },
            Phase::Done(_) => if self.phase_ticks >= CLEAR_TICKS {
                TickAction::Drop
            } else {
                TickAction::Idle
            },
        }
    }

    pub fn enter(&mut self, phase: Phase)
        ensures
            final(self)@ == old(self)@.entering(phase),
    {
        self.phase = phase;
        self.phase_ticks = 0;
    }

    /// The message shown for an outcome of this search.
    pub fn outcome_message(&self, outcome: Outcome) -> (text: String)
        ensures
            text@ == self@.outcome_text(outcome),
    {
        match outcome {
            Outcome::Failed => "search failed for ".to_owned().concat(self.title.as_str()),
            Outcome::TimedOut => self.title.clone().concat(": search timed out, check the queue"),
            Outcome::Grabbed(count) => if count == 1 {
                self.title.clone().concat(" added to queue")
            } else {
                let mut text = self.title.clone().concat(": ");
                push_decimal(&mut text, count as u64);
                text.concat(" downloads added")
            },
            Outcome::NothingFound => "no releases found yet for ".to_owned().concat(
                self.title.as_str(),
            ),
        }
    }
}

// The lifecycle as a whole.

/// Something that happens to a monitor between its creation and its end.
pub enum MonitorEvent {
    Tick(usize),
    Started(i64),
    Polled(Option<Seq<char>>),
    PollLost,
}

impl MonitorModel {
    /// The monitor after an event, with what the event asks for.
    pub open spec fn after_event(self, event: MonitorEvent) -> (MonitorModel, TickAction) {
        match event {
            MonitorEvent::Tick(new_items) => self.after_tick(new_items),
            MonitorEvent::Started(id) => (self.after_started(id), TickAction::Idle),
            MonitorEvent::Polled(status) => (self.after_polled(status), TickAction::Idle),
            MonitorEvent::PollLost => (
                MonitorModel { poll_inflight: false, ..self },
                TickAction::Idle,
            ),
        }
    }

    /// The monitor after a run of events.
    pub open spec fn after_events(self, events: Seq<MonitorEvent>) -> MonitorModel
        decreases events.len(),
    {
        if events.len() == 0 {
            self
        } else {
            self.after_events(events.drop_last()).after_event(events.last()).0
        }
    }

    /// How many more ticks a monitor can live through at most.
    pub open spec fn ticks_left(self) -> int {
        match self.phase {
            Phase::Starting | Phase::Searching => {
                let wait = if self.age_ticks < TIMEOUT_TICKS {
                    TIMEOUT_TICKS - self.age_ticks
                } else {
                    1
                };
                wait + CONFIRM_GRACE_TICKS + CLEAR_TICKS
            },
            Phase::Confirming => {
                let wait = if self.phase_ticks < CONFIRM_GRACE_TICKS {
                    CONFIRM_GRACE_TICKS - self.phase_ticks
                } else {
                    1
                };
                wait + CLEAR_TICKS
            },
            Phase::Done(_) => if self.phase_ticks < CLEAR_TICKS {
                CLEAR_TICKS - self.phase_ticks
            } else {
                1
            },
        }
    }
}

/// How many of the events are ticks.
pub open spec fn tick_count(events: Seq<MonitorEvent>) -> nat
    decreases events.len(),
{
    if events.len() == 0 {
        0
    } else {
        tick_count(events.drop_last()) + if events.last() is Tick { 1nat } else { 0nat }
    }
}

/// A tick either expires the monitor or brings its end nearer.
pub proof fn law_tick_brings_the_end_nearer(m: MonitorModel, new_items: usize)
    ensures
        m.after_tick(new_items).1 is Drop || m.after_tick(new_items).0.ticks_left()
            < m.ticks_left(),
{
}

/// No reply from the server prolongs a monitor's life.
pub proof fn law_replies_do_not_prolong(m: MonitorModel, event: MonitorEvent)
    requires
        !(event is Tick),
    ensures
        m.after_event(event).0.ticks_left() <= m.ticks_left(),
{
}

/// Whatever the server answers, a monitor that sees this many ticks is told
/// to go: a run of events without an expiry holds fewer ticks than the
/// timeout, the grace window and the clear time together.
pub proof fn law_every_monitor_expires(m: MonitorModel, events: Seq<MonitorEvent>)
    requires
        m.phase is Starting,
        m.age_ticks == 0,
        forall|i: int|
            0 <= i < events.len() ==> !(m.after_events(events.take(i)).after_event(
                #[trigger] events[i],
            ).1 is Drop),
    ensures
        tick_count(events) < TIMEOUT_TICKS + CONFIRM_GRACE_TICKS + CLEAR_TICKS,
{
    lemma_ticks_left_falls(m, events);
    lemma_ticks_left_positive(m.after_events(events));
}

proof fn lemma_ticks_left_positive(m: MonitorModel)
    ensures
        m.ticks_left() >= 1,
{
}

proof fn lemma_ticks_left_falls(m: MonitorModel, events: Seq<MonitorEvent>)
    requires
        forall|i: int|
            0 <= i < events.len() ==> !(m.after_events(events.take(i)).after_event(
                #[trigger] events[i],
            ).1 is Drop),
    ensures
        m.after_events(events).ticks_left() + tick_count(events) <= m.ticks_left(),
    decreases events.len(),
{
    if events.len() > 0 {
        let before = events.drop_last();
        assert forall|i: int| 0 <= i < before.len() implies !(m.after_events(
            before.take(i),
        ).after_event(#[trigger] before[i]).1 is Drop) by {
            assert(before.take(i) =~= events.take(i));
            assert(events[i] == before[i]);
        }
        lemma_ticks_left_falls(m, before);
        let last = events[events.len() - 1];
        assert(before =~= events.take(events.len() - 1));
        let mid = m.after_events(before);
        match last {
            MonitorEvent::Tick(n) => law_tick_brings_the_end_nearer(mid, n),
            _ => law_replies_do_not_prolong(mid, last),
        }
    }
}

/// A poll is asked for only while none is in flight, and marks itself as
/// being in flight: polls never overlap.
pub proof fn law_polls_never_overlap(m: MonitorModel, new_items: usize)
    ensures
        m.after_tick(new_items).1 is Poll ==> !m.poll_inflight && m.after_tick(
            new_items,
        ).0.poll_inflight,
        m.poll_inflight ==> m.after_tick(new_items).0.poll_inflight,
{
}

/// A search that ended stays ended, with the same outcome, whatever arrives.
pub proof fn law_outcomes_are_final(m: MonitorModel, event: MonitorEvent)
    requires
        !m.active(),
    ensures
        m.after_event(event).0.phase == m.phase,
{
}

// The status line.

/// How many of the monitors are still at work.
pub open spec fn active_count(monitors: Seq<MonitorModel>) -> nat
    decreases monitors.len(),
{
    if monitors.len() == 0 {
        0
    } else {
        active_count(monitors.drop_last()) + if monitors.last().active() { 1nat } else { 0nat }
    }
}

/// Whether this is the monitor that ended last, the first one listed where
/// several ended together.
pub open spec fn is_newest_done(monitors: Seq<MonitorModel>, i: int) -> bool {
    &&& 0 <= i < monitors.len()
    &&& !monitors[i].active()
    &&& forall|j: int|
        #![trigger monitors[j]]
        0 <= j < monitors.len() && !monitors[j].active() ==> {
            &&& monitors[i].phase_ticks <= monitors[j].phase_ticks
            &&& j < i ==> monitors[i].phase_ticks < monitors[j].phase_ticks
        }
}

/// The line for an ended search, with a count of those still running.
pub open spec fn done_line(app: Seq<char>, m: MonitorModel, active: nat) -> Seq<(Seq<char>, Tone)> {
    let outcome = m.phase->Done_0;
    let head = seq![
        (" "@ + app + ": "@, Tone::Dim),
        (
            m.outcome_text(outcome),
            if outcome is Grabbed {
                Tone::Accent
            } else {
                Tone::Fg
            },
        ),
    ];
    if active > 0 {
        head.push(("  (+"@ + decimal(active) + " searching)"@, Tone::Dim))
    } else {
        head
    }
}

/// The line while every search is still running.
pub open spec fn searching_line(app: Seq<char>, first: Seq<char>, active: nat) -> Seq<
    (Seq<char>, Tone),
> {
    if active == 1 {
        seq![(" "@ + app + ": searching for "@ + first + "..."@, Tone::Accent)]
    } else {
        seq![
            (
                " "@ + app + ": searching "@ + decimal(active) + " titles ("@ + first + "...)"@,
                Tone::Accent,
            ),
        ]
    }
}

proof fn lemma_active_count_take(monitors: Seq<MonitorModel>, i: int)
    requires
        0 <= i < monitors.len(),
    ensures
        active_count(monitors.take(i + 1)) == active_count(monitors.take(i)) + (
        if monitors[i].active() {
            1nat
        } else {
            0nat
        }),
{
    assert(monitors.take(i + 1).drop_last() =~= monitors.take(i));
}

/// Whether this is the line that summarises the monitors: none where there
/// are none, the newest result where a search has ended, the first title where
/// all are still searching.
pub open spec fn is_status_line(
    app: Seq<char>,
    monitors: Seq<MonitorModel>,
    line: Option<Seq<(Seq<char>, Tone)>>,
) -> bool {
    if monitors.len() == 0 {
        line is None
    } else if active_count(monitors) == monitors.len() {
        line == Some(searching_line(app, monitors[0].title, monitors.len()))
    } else {
        exists|i: int| #[trigger]
            is_newest_done(monitors, i) && line == Some(
                done_line(app, monitors[i], active_count(monitors)),
            )
    }
}

/// A line that may be missing, as texts and tones.
pub open spec fn shown_line(line: Option<Vec<Span>>) -> Option<Seq<(Seq<char>, Tone)>> {
    match line {
        Some(spans) => Some(shown(spans@)),
        None => None,
    }
}

/// The search that ended last is one and the same, so the status line is
/// determined by the monitors.
pub proof fn law_newest_is_unique(monitors: Seq<MonitorModel>, i: int, j: int)
    requires
        is_newest_done(monitors, i),
        is_newest_done(monitors, j),
    ensures
        i == j,
{
    assert(!monitors[i].active());
    assert(!monitors[j].active());
}

/// The one status-bar line summarising a browse's monitors, or `None` when
/// there are none. The newest still-visible terminal result wins (with a count
/// of any searches still running); otherwise a live "searching" summary.
pub fn status_line(app: &str, monitors: &[Monitor]) -> (line: Option<Vec<Span>>)
    ensures
        is_status_line(app@, monitors_view(monitors@), shown_line(line)),
{
    if monitors.len() == 0 {
        return None;
    }
    let ghost all = monitors_view(monitors@);
    let mut active: usize = 0;
    let mut newest: Option<usize> = None;
    let mut i: usize = 0;
    while i < monitors.len()
        invariant
            i <= monitors@.len(),
            all == monitors_view(monitors@),
            active <= i,
            active == active_count(all.take(i as int)),
            newest is Some ==> newest->0 < i && is_newest_done(all.take(i as int), newest->0 as int),
            newest is None ==> active == i,
            newest is None ==> forall|j: int| 0 <= j < i ==> (#[trigger] all[j]).active(),
            newest is Some ==> active < i,
        decreases monitors@.len() - i,
    {
        proof {
            lemma_active_count_take(all, i as int);
        }
        let ghost before = all.take(i as int);
        let ghost after = all.take(i + 1);
        assert(after =~= before.push(all[i as int]));
        if monitors[i].is_active() {
            active += 1;
            assert(forall|j: int| 0 <= j < i ==> before[j] == #[trigger] after[j]);
        } else {
            match newest {
                Some(n) => {
                    if monitors[i].phase_ticks < monitors[n].phase_ticks {
                        newest = Some(i);
                    }
                },
                None => {
                    newest = Some(i);
                },
            }
            assert(forall|j: int| 0 <= j < i ==> before[j] == #[trigger] after[j]);
        }
        i += 1;
    }
    assert(all.take(i as int) =~= all);
    let mut head: String = " ".to_owned().concat(app);
    if let Some(n) = newest {
        let Phase::Done(outcome) = monitors[n].phase else {
            assert(!all[n as int].active());
            return None;
        };
        let tone = if matches!(outcome, Outcome::Grabbed(_)) {
            Tone::Accent
        } else {
            Tone::Fg
        };
        let mut spans: Vec<Span> = Vec::new();
        spans.push(span(head.concat(": "), Tone::Dim));
        spans.push(span(monitors[n].outcome_message(outcome), tone));
        if active > 0 {
            let mut more = "  (+".to_owned();
            push_decimal(&mut more, active as u64);
            spans.push(span(more.concat(" searching)"), Tone::Dim));
        }
        assert(shown(spans@) =~= done_line(app@, all[n as int], active_count(all)));
        return Some(spans);
    }
    let first = monitors[0].title.as_str();
    if active == 1 {
        head.append(": searching for ");
        head.append(first);
        head.append("...");
    } else {
        head.append(": searching ");
        push_decimal(&mut head, active as u64);
        head.append(" titles (");
        head.append(first);
        head.append("...)");
    }
    let mut spans: Vec<Span> = Vec::new();
    spans.push(span(head, Tone::Accent));
    assert(shown(spans@) =~= searching_line(app@, all[0].title, active as nat));
    Some(spans)
}

// All monitors of a browse.

/// Each monitor after a tick, with what its tick asks for; `counts` holds how
/// many new queue items each one has.
pub open spec fn ticked(monitors: Seq<MonitorModel>, counts: Seq<usize>) -> Seq<
    (MonitorModel, TickAction),
> {
    Seq::new(monitors.len(), |i: int| monitors[i].after_tick(counts[i]))
}

/// Whether the monitor of a generation has expired.
pub open spec fn expired(ticks: Seq<(MonitorModel, TickAction)>, generation: u64) -> bool {
    exists|i: int|
        0 <= i < ticks.len() && (#[trigger] ticks[i]).1 is Drop && ticks[i].0.generation
            == generation
}

/// The first `n` monitors without the expired ones.
pub open spec fn kept(ticks: Seq<(MonitorModel, TickAction)>, n: nat) -> Seq<MonitorModel>
    decreases n,
{
    if n == 0 || n > ticks.len() {
        Seq::empty()
    } else {
        let before = kept(ticks, (n - 1) as nat);
        let m = ticks[n - 1].0;
        if expired(ticks, m.generation) {
            before
        } else {
            before.push(m)
        }
    }
}

/// Whether some monitor wants the queue refreshed.
pub open spec fn wants_queue(ticks: Seq<(MonitorModel, TickAction)>) -> bool {
    exists|i: int| 0 <= i < ticks.len() && (#[trigger] ticks[i]).1 is FetchQueue
}

/// The command polls that the monitors ask for, in order: each generation with
/// its command id.
pub open spec fn polls(ticks: Seq<(MonitorModel, TickAction)>) -> Seq<(u64, i64)>
    decreases ticks.len(),
{
    if ticks.len() == 0 {
        Seq::empty()
    } else {
        let before = polls(ticks.drop_last());
        match ticks.last().1 {
            TickAction::Poll(command_id) => before.push((ticks.last().0.generation, command_id)),
            _ => before,
        }
    }
}

/// What a round of ticks leaves and asks for.
pub struct Round {
    pub monitors: Vec<Monitor>,
    pub want_queue: bool,
    pub polls: Vec<(u64, i64)>,
}

/// Whether a monitor of this generation has expired.
fn has_expired(monitors: &Vec<Monitor>, actions: &Vec<TickAction>, generation: u64) -> (answer:
    bool)
    requires
        monitors@.len() == actions@.len(),
    ensures
        answer == expired(
            Seq::new(monitors@.len(), |i: int| (monitors@[i]@, actions@[i])),
            generation,
        ),
{
    let ghost ticks = Seq::new(monitors@.len(), |i: int| (monitors@[i]@, actions@[i]));
    let mut i: usize = 0;
    while i < monitors.len()
        invariant
            i <= monitors@.len() == actions@.len(),
            ticks == Seq::new(monitors@.len(), |i: int| (monitors@[i]@, actions@[i])),
            forall|k: int|
                0 <= k < i ==> !((#[trigger] ticks[k]).1 is Drop && ticks[k].0.generation
                    == generation),
        decreases monitors@.len() - i,
    {
        assert(ticks[i as int] == (monitors@[i as int]@, actions@[i as int]));
        if matches!(actions[i], TickAction::Drop) && monitors[i].generation == generation {
            return true;
        }
        i += 1;
    }
    false
}

/// The monitors in the opposite order.
fn reversed(monitors: Vec<Monitor>) -> (list: Vec<Monitor>)
    ensures
        monitors_view(list@) == monitors_view(monitors@).reverse(),
{
    let ghost all = monitors@;
    let mut rest: Vec<Monitor> = monitors;
    let mut list: Vec<Monitor> = Vec::new();
    let n: usize = rest.len();
    let mut i: usize = 0;
    while i < n
        invariant
            i <= n == all.len(),
            rest@ == all.take(n - i),
            list@ == all.reverse().take(i as int),
        decreases n - i,
    {
        if let Some(monitor) = rest.pop() {
            list.push(monitor);
        }
        assert(list@ =~= all.reverse().take(i + 1));
        i += 1;
    }
    assert(monitors_view(list@) =~= monitors_view(all).reverse());
    list
}

/// The monitors that have not expired.
fn keep_unexpired(monitors: Vec<Monitor>, actions: &Vec<TickAction>) -> (list: Vec<Monitor>)
    requires
        monitors@.len() == actions@.len(),
    ensures
        monitors_view(list@) == kept(
            Seq::new(monitors@.len(), |i: int| (monitors@[i]@, actions@[i])),
            monitors@.len(),
        ),
{
    let ghost ticks = Seq::new(monitors@.len(), |i: int| (monitors@[i]@, actions@[i]));
    let n: usize = monitors.len();
    // What is to go, settled before the monitors are moved.
    let mut gone: Vec<bool> = Vec::new();
    let mut i: usize = 0;
    while i < n
        invariant
            i <= n == monitors@.len() == actions@.len(),
            ticks == Seq::new(monitors@.len(), |i: int| (monitors@[i]@, actions@[i])),
            gone@.len() == i,
            forall|k: int|
                0 <= k < i ==> #[trigger] gone@[k] == expired(ticks, ticks[k].0.generation),
        decreases n - i,
    {
        gone.push(has_expired(&monitors, actions, monitors[i].generation));
        i += 1;
    }
    let mut list: Vec<Monitor> = Vec::new();
    let mut left: Vec<Monitor> = monitors;
    let mut i: usize = n;
    assert(kept(ticks, n as nat) + monitors_view(list@).reverse() =~= kept(ticks, n as nat));
    while i > 0
        invariant
            i <= n == ticks.len() == gone@.len(),
            left@.len() == i,
            forall|k: int| 0 <= k < i ==> (#[trigger] left@[k])@ == ticks[k].0,
            forall|k: int|
                0 <= k < n ==> #[trigger] gone@[k] == expired(ticks, ticks[k].0.generation),
            kept(ticks, i as nat) + monitors_view(list@).reverse() == kept(ticks, n as nat),
        decreases i,
    {
        i -= 1;
        let ghost before = monitors_view(list@);
        if let Some(monitor) = left.pop() {
            let ghost m = monitor@;
            assert(m == ticks[i as int].0);
            if !gone[i] {
                list.push(monitor);
                let ghost now = monitors_view(list@);
                assert(now =~= before.push(m));
                assert(kept(ticks, i as nat) + now.reverse() =~= kept(ticks, (i + 1) as nat)
                    + before.reverse());
            }
        }
    }
    assert(kept(ticks, 0) + monitors_view(list@).reverse() =~= monitors_view(list@).reverse());
    reversed(list)
}

/// Tick every monitor once, collect what they ask for and drop the expired.
pub fn tick_round(monitors: Vec<Monitor>, counts: &Vec<usize>) -> (round: Round)
    requires
        counts@.len() == monitors@.len(),
    ensures
        ({
            let ticks = ticked(monitors_view(monitors@), counts@);
            &&& monitors_view(round.monitors@) == kept(ticks, ticks.len())
            &&& round.want_queue == wants_queue(ticks)
            &&& round.polls@ == polls(ticks)
        }),
{
    let ghost all = monitors_view(monitors@);
    let ghost ticks = ticked(all, counts@);
    let mut rest: Vec<Monitor> = monitors;
    let mut actions: Vec<TickAction> = Vec::new();
    let mut want_queue = false;
    let mut poll_list: Vec<(u64, i64)> = Vec::new();
    let n: usize = rest.len();
    let mut i: usize = 0;
    while i < n
        invariant
            i <= n == rest@.len() == all.len() == counts@.len(),
            ticks == ticked(all, counts@),
            actions@.len() == i,
            forall|k: int| 0 <= k < i ==> (#[trigger] rest@[k])@ == ticks[k].0,
            forall|k: int| i <= k < n ==> (#[trigger] rest@[k])@ == all[k],
            forall|k: int| 0 <= k < i ==> #[trigger] actions@[k] == ticks[k].1,
            poll_list@ == polls(ticks.take(i as int)),
            want_queue == exists|k: int| 0 <= k < i && (#[trigger] ticks[k]).1 is FetchQueue,
        decreases n - i,
    {
        assert(ticks.take(i + 1).drop_last() =~= ticks.take(i as int));
        let action: TickAction = rest[i].tick(counts[i]);
        assert(ticks[i as int] == (rest@[i as int]@, action));
        match action {
            TickAction::Poll(command_id) => {
                poll_list.push((rest[i].generation, command_id));
            },
            TickAction::FetchQueue => {
                want_queue = true;
            },
            _ => {},
        }
        actions.push(action);
        i += 1;
    }
    assert(ticks.take(n as int) =~= ticks);
    assert(Seq::new(rest@.len(), |i: int| (rest@[i]@, actions@[i])) =~= ticks);
    Round { monitors: keep_unexpired(rest, &actions), want_queue, polls: poll_list }
}

/// Where the monitor of a generation stands in the list.
pub open spec fn monitor_at(monitors: Seq<MonitorModel>, generation: u64) -> Option<int>
    decreases monitors.len(),
{
    if monitors.len() == 0 {
        None
    } else if monitors[0].generation == generation {
        Some(0int)
    } else {
        match monitor_at(monitors.drop_first(), generation) {
            Some(i) => Some(i + 1),
            None => None,
        }
    }
}

fn find_monitor(monitors: &Vec<Monitor>, generation: u64) -> (at: Option<usize>)
    ensures
        at is Some == monitor_at(monitors_view(monitors@), generation) is Some,
        at is Some ==> at->0 < monitors@.len() && at->0 == monitor_at(
            monitors_view(monitors@),
            generation,
        )->0,
{
    let ghost all = monitors_view(monitors@);
    let mut i: usize = 0;
    assert(all.skip(0) =~= all);
    while i < monitors.len()
        invariant
            i <= monitors@.len(),
            all == monitors_view(monitors@),
            match monitor_at(all.skip(i as int), generation) {
                Some(k) => monitor_at(all, generation) == Some(k + i),
                None => monitor_at(all, generation) is None,
            },
        decreases monitors@.len() - i,
    {
        if monitors[i].generation == generation {
            return Some(i);
        }
        assert(all.skip(i as int).drop_first() =~= all.skip(i + 1));
        i += 1;
    }
    None
}

/// The monitors once a tracked command was created, or failed to start. A
/// command without a positive id cannot be polled and counts as failed; the
/// monitor goes when the key was rejected. A result with no live monitor is
/// dropped (the monitor was cleared, or belongs to a superseded browse).
pub open spec fn with_started(
    monitors: Seq<MonitorModel>,
    generation: u64,
    result: Result<Command, Error>,
) -> Seq<MonitorModel> {
    match monitor_at(monitors, generation) {
        None => monitors,
        Some(i) => match result {
            Ok(command) => if command.id > 0 {
                monitors.update(i, monitors[i].after_started(command.id))
            } else {
                monitors.update(i, monitors[i].failed())
            },
            Err(err) => if err is Unauthorized {
                monitors.remove(i)
            } else {
                monitors.update(i, monitors[i].failed())
            },
        },
    }
}

/// The monitors once a status poll landed.
pub open spec fn with_polled(
    monitors: Seq<MonitorModel>,
    generation: u64,
    result: Result<Command, Error>,
) -> Seq<MonitorModel> {
    match monitor_at(monitors, generation) {
        None => monitors,
        Some(i) => match result {
            Ok(command) => monitors.update(
                i,
                monitors[i].after_polled(opt_text(command.status)),
            ),
            Err(err) => if err is Unauthorized {
                monitors.remove(i)
            } else {
                monitors.update(i, MonitorModel { poll_inflight: false, ..monitors[i] })
            },
        },
    }
}

/// Whether a poll says that its command completed, so the queue is to be
/// refreshed to confirm the outcome.
pub open spec fn poll_completes(
    monitors: Seq<MonitorModel>,
    generation: u64,
    result: Result<Command, Error>,
) -> bool {
    match monitor_at(monitors, generation) {
        Some(i) => result matches Ok(command) && monitors[i].completes(opt_text(command.status)),
        None => false,
    }
}

/// Whether a result for a live monitor says that the key was rejected.
pub open spec fn rejects_key(
    monitors: Seq<MonitorModel>,
    generation: u64,
    result: Result<Command, Error>,
) -> bool {
    &&& monitor_at(monitors, generation) is Some
    &&& result matches Err(err)
    &&& err is Unauthorized
}

/// Take in that a tracked command was created, or failed to start; returns
/// whether the key was rejected.
pub fn search_started(
    monitors: &mut Vec<Monitor>,
    generation: u64,
    result: Result<Command, Error>,
) -> (rejected: bool)
    ensures
        monitors_view(final(monitors)@) == with_started(
            monitors_view(old(monitors)@),
            generation,
            result,
        ),
        rejected == rejects_key(monitors_view(old(monitors)@), generation, result),
{
    let Some(i) = find_monitor(monitors, generation) else {
        return false;
    };
    let ghost before = monitors_view(monitors@);
    match result {
        Ok(command) => {
            if command.id > 0 {
                monitors[i].started(command.id);
            } else {
                monitors[i].failed_to_start();
            }
            assert(monitors_view(monitors@) =~= with_started(before, generation, result));
            false
        },
        Err(Error::Unauthorized) => {
            monitors.remove(i);
            assert(monitors_view(monitors@) =~= with_started(before, generation, result));
            true
        },
        Err(_) => {
            monitors[i].failed_to_start();
            assert(monitors_view(monitors@) =~= with_started(before, generation, result));
            false
        },
    }
}

/// Take in a status poll; returns whether the command completed, and whether
/// the key was rejected.
pub fn search_polled(
    monitors: &mut Vec<Monitor>,
    generation: u64,
    result: Result<Command, Error>,
) -> (r: (bool, bool))
    ensures
        monitors_view(final(monitors)@) == with_polled(
            monitors_view(old(monitors)@),
            generation,
            result,
        ),
        r.0 == poll_completes(monitors_view(old(monitors)@), generation, result),
        r.1 == rejects_key(monitors_view(old(monitors)@), generation, result),
{
    let Some(i) = find_monitor(monitors, generation) else {
        return (false, false);
    };
    let ghost before = monitors_view(monitors@);
    match result {
        Ok(command) => {
            let completed: bool = monitors[i].polled(opt_str(&command.status));
            assert(monitors_view(monitors@) =~= with_polled(before, generation, result));
            (completed, false)
        },
        Err(Error::Unauthorized) => {
            monitors.remove(i);
            assert(monitors_view(monitors@) =~= with_polled(before, generation, result));
            (false, true)
        },
        Err(_) => {
            monitors[i].clear_poll_inflight();
            assert(monitors_view(monitors@) =~= with_polled(before, generation, result));
            (false, false)
        },
    }
}

// What the monitors are for.

/// A search starts when its command is created, and follows that command from
/// then on; a second start changes nothing.
pub proof fn law_a_started_search_follows_its_command(m: MonitorModel, command_id: i64)
    ensures
        ({
            let t = m.after_started(command_id);
            &&& m.phase is Starting ==> t.phase is Searching && t.command_id == Some(command_id)
                && t.phase_ticks == 0
            &&& !(m.phase is Starting) ==> t == m
            &&& t.generation == m.generation
            &&& t.target_id == m.target_id
            &&& t.title == m.title
            &&& t.baseline == m.baseline
            &&& t.age_ticks == m.age_ticks
        }),
        m.failed().phase == Phase::Done(Outcome::Failed),
        m.failed().title == m.title,
        m.failed().generation == m.generation,
{
}

/// What the server says of the command decides how the search goes on: a
/// completed one is checked against the queue, one that failed, was aborted or
/// was cancelled has failed, and any other is waited for.
pub proof fn law_replies_decide_the_search(m: MonitorModel, status: Option<Seq<char>>)
    ensures
        ({
            let t = m.after_polled(status);
            let broken = status == Some("failed"@) || status == Some("aborted"@) || status == Some(
                "cancelled"@,
            );
            &&& !t.poll_inflight
            &&& !(m.phase is Searching) ==> t.phase == m.phase && t.phase_ticks == m.phase_ticks
            &&& m.phase is Searching ==> (t.phase is Confirming <==> status == Some("completed"@))
            &&& m.phase is Searching ==> (t.phase == Phase::Done(Outcome::Failed) <==> broken)
            &&& m.phase is Searching && status != Some("completed"@) && !broken ==> t.phase
                is Searching && t.phase_ticks == m.phase_ticks
            &&& m.completes(status) == (m.phase is Searching && status == Some("completed"@))
            &&& t.generation == m.generation
            &&& t.target_id == m.target_id
            &&& t.title == m.title
            &&& t.command_id == m.command_id
            &&& t.baseline == m.baseline
            &&& t.age_ticks == m.age_ticks
        }),
{
    reveal_strlit("completed");
    reveal_strlit("failed");
    reveal_strlit("aborted");
    reveal_strlit("cancelled");
    assert("completed"@[0] == 'c' && "failed"@[0] == 'f' && "aborted"@[0] == 'a');
    assert("completed"@[1] == 'o' && "cancelled"@[1] == 'a');
}

/// Every two seconds a running search is polled, under its own command, and a
/// completed one is checked against the queue. A completed search ends as
/// grabbed, with as many downloads as are new, as soon as there are any, and as
/// fruitless after six seconds without; one that never completes times out
/// after three minutes. What ended is shown for eight seconds.
pub proof fn law_ticks_take_a_search_to_its_end(m: MonitorModel, new_items: usize)
    requires
        m.age_ticks < u32::MAX,
        m.phase_ticks < u32::MAX,
    ensures
        ({
            let (t, action) = m.after_tick(new_items);
            let beat = (m.phase_ticks + 1) % 8 == 0;
            let waits = m.phase is Starting || m.phase is Searching;
            &&& t.generation == m.generation
            &&& t.target_id == m.target_id
            &&& t.title == m.title
            &&& t.command_id == m.command_id
            &&& t.baseline == m.baseline
            &&& t.age_ticks == m.age_ticks + 1
            &&& t.phase_ticks == if t.phase == m.phase {
                m.phase_ticks + 1
            } else {
                0
            }
            &&& waits && m.age_ticks + 1 >= 720 ==> t.phase == Phase::Done(Outcome::TimedOut)
                && action is Idle
            &&& waits && m.age_ticks + 1 < 720 ==> t.phase == m.phase
            &&& m.phase is Starting ==> action is Idle
            &&& m.phase is Searching && m.age_ticks + 1 < 720 ==> {
                let polls = m.command_id is Some && !m.poll_inflight && beat;
                &&& polls ==> action == TickAction::Poll(m.command_id->0) && t.poll_inflight
                &&& !polls ==> action is Idle && t.poll_inflight == m.poll_inflight
            }
            &&& m.phase is Confirming && new_items >= 1 ==> t.phase == Phase::Done(
                Outcome::Grabbed(new_items),
            ) && action is Idle
            &&& m.phase is Confirming && new_items == 0 && m.phase_ticks + 1 >= 24 ==> t.phase
                == Phase::Done(Outcome::NothingFound) && action is Idle
            &&& m.phase is Confirming && new_items == 0 && m.phase_ticks + 1 < 24 ==> t.phase
                is Confirming && (if beat {
                action is FetchQueue
            } else {
                action is Idle
            })
            &&& m.phase is Done ==> t.phase == m.phase && (if m.phase_ticks + 1 >= 32 {
                action is Drop
            } else {
                action is Idle
            })
        }),
{
}

/// Each outcome says what came of the search for its title.
pub proof fn law_outcomes_name_their_title(m: MonitorModel, count: usize)
    ensures
        m.outcome_text(Outcome::Failed) == "search failed for "@ + m.title,
        m.outcome_text(Outcome::TimedOut) == m.title + ": search timed out, check the queue"@,
        m.outcome_text(Outcome::NothingFound) == "no releases found yet for "@ + m.title,
        m.outcome_text(Outcome::Grabbed(1)) == m.title + " added to queue"@,
        count != 1 ==> m.outcome_text(Outcome::Grabbed(count)) == m.title + ": "@ + decimal(
            count as nat,
        ) + " downloads added"@,
{
}

/// The status line is about the app it is shown for: of one running search it
/// names the title, of one that ended the outcome, in another colour where
/// something was grabbed.
pub proof fn law_the_status_line_tells_of_one_search(
    app: Seq<char>,
    m: MonitorModel,
    line: Option<Seq<(Seq<char>, Tone)>>,
)
    requires
        is_status_line(app, seq![m], line),
    ensures
        line is Some,
        !(m.phase is Done) ==> line->0.len() == 1 && line->0[0].0 == " "@ + app
            + ": searching for "@ + m.title + "..."@,
        m.phase matches Phase::Done(outcome) ==> {
            &&& line->0.len() == 2
            &&& line->0[0].0 == " "@ + app + ": "@
            &&& line->0[1].0 == m.outcome_text(outcome)
            &&& (line->0[1].1 == Tone::Accent <==> outcome is Grabbed)
        },
{
    let all = seq![m];
    assert(all.drop_last() =~= Seq::empty());
    assert(active_count(all.drop_last()) == 0);
    assert(active_count(all) == if m.active() {
        1nat
    } else {
        0nat
    });
}

/// No monitors, no status line.
pub proof fn law_without_searches_there_is_no_line(
    app: Seq<char>,
    line: Option<Seq<(Seq<char>, Tone)>>,
)
    requires
        is_status_line(app, Seq::empty(), line),
    ensures
        line is None,
{
}

/// Of several searches the one that ended last is told about, together with
/// how many are still running.
pub proof fn law_the_newest_outcome_is_shown(
    app: Seq<char>,
    monitors: Seq<MonitorModel>,
    line: Option<Seq<(Seq<char>, Tone)>>,
    at: int,
)
    requires
        is_status_line(app, monitors, line),
        0 <= at < monitors.len(),
        monitors[at].phase is Done,
        forall|j: int|
            #![trigger monitors[j]]
            0 <= j < monitors.len() && j != at && monitors[j].phase is Done
                ==> monitors[at].phase_ticks < monitors[j].phase_ticks,
    ensures
        line is Some,
        line->0[0].0 == " "@ + app + ": "@,
        line->0[1].0 == monitors[at].outcome_text(monitors[at].phase->Done_0),
        line->0.len() == 2 || line->0.len() == 3,
        line->0.len() == 3 ==> line->0[2].0 == "  (+"@ + decimal(active_count(monitors))
            + " searching)"@,
        line->0.len() == 2 <==> active_count(monitors) == 0,
{
    lemma_ended_monitors_are_not_active(monitors, at);
    let i = choose|i: int| #[trigger]
        is_newest_done(monitors, i) && line == Some(
            done_line(app, monitors[i], active_count(monitors)),
        );
    assert(!monitors[i].active());
    assert(!monitors[at].active());
}

proof fn lemma_ended_monitors_are_not_active(monitors: Seq<MonitorModel>, at: int)
    requires
        0 <= at < monitors.len(),
        !monitors[at].active(),
    ensures
        active_count(monitors) < monitors.len(),
    decreases monitors.len(),
{
    lemma_active_at_most_all(monitors.drop_last());
    if at < monitors.len() - 1 {
        assert(monitors.drop_last()[at] == monitors[at]);
        lemma_ended_monitors_are_not_active(monitors.drop_last(), at);
    }
}

proof fn lemma_active_at_most_all(monitors: Seq<MonitorModel>)
    ensures
        active_count(monitors) <= monitors.len(),
    decreases monitors.len(),
{
    if monitors.len() > 0 {
        lemma_active_at_most_all(monitors.drop_last());
    }
}

/// The searches that are at work are those that have not ended.
pub proof fn law_active_searches_have_not_ended(monitors: Seq<MonitorModel>)
    ensures
        ({
            let running = Set::new(|i: int| 0 <= i < monitors.len() && !(monitors[i].phase is Done));
            running.finite() && running.len() == active_count(monitors)
        }),
    decreases monitors.len(),
{
    let running = Set::new(|i: int| 0 <= i < monitors.len() && !(monitors[i].phase is Done));
    if monitors.len() == 0 {
        assert(running =~= Set::empty());
    } else {
        let rest = monitors.drop_last();
        let before = Set::new(|i: int| 0 <= i < rest.len() && !(rest[i].phase is Done));
        law_active_searches_have_not_ended(rest);
        let last = monitors.len() - 1;
        assert forall|i: int| 0 <= i < rest.len() implies rest[i] == #[trigger] monitors[i] by {}
        if monitors.last().active() {
            assert(running =~= before.insert(last));
        } else {
            assert(running =~= before);
        }
    }
}

/// A round of ticks ticks every monitor once and drops exactly those that have
/// expired. The polls are those that the ticks ask for, each for the monitor
/// that asks.
pub proof fn law_a_round_ticks_every_monitor(monitors: Seq<MonitorModel>, counts: Seq<usize>)
    requires
        counts.len() == monitors.len(),
        forall|i: int, j: int|
            0 <= i < j < monitors.len() ==> (#[trigger] monitors[i]).generation != (
            #[trigger] monitors[j]).generation,
    ensures
        ({
            let ticks = ticked(monitors, counts);
            let left = kept(ticks, ticks.len());
            &&& ticks.len() == monitors.len()
            &&& forall|i: int|
                0 <= i < monitors.len() ==> #[trigger] ticks[i] == monitors[i].after_tick(counts[i])
            &&& forall|i: int|
                0 <= i < monitors.len() && !((#[trigger] ticks[i]).1 is Drop) ==> left.contains(
                    ticks[i].0,
                )
            &&& forall|m: MonitorModel| #[trigger]
                left.contains(m) ==> exists|i: int|
                    0 <= i < monitors.len() && (#[trigger] ticks[i]).0 == m && !(
                    ticks[i].1 is Drop)
            &&& forall|i: int|
                0 <= i < monitors.len() && (#[trigger] ticks[i]).1 is Poll ==> polls(
                    ticks,
                ).contains((monitors[i].generation, ticks[i].1->Poll_0))
            &&& forall|poll: (u64, i64)| #[trigger]
                polls(ticks).contains(poll) ==> exists|i: int|
                    0 <= i < monitors.len() && (#[trigger] ticks[i]).1 == TickAction::Poll(poll.1)
                        && monitors[i].generation == poll.0
            &&& wants_queue(ticks) == exists|i: int|
                0 <= i < monitors.len() && (#[trigger] ticks[i]).1 is FetchQueue
        }),
{
    let ticks = ticked(monitors, counts);
    assert forall|i: int| 0 <= i < ticks.len() implies expired(ticks, ticks[i].0.generation) == (
    #[trigger] ticks[i]).1 is Drop by {
        assert(ticks[i].0.generation == monitors[i].generation);
        if expired(ticks, ticks[i].0.generation) {
            let j = choose|j: int|
                0 <= j < ticks.len() && (#[trigger] ticks[j]).1 is Drop && ticks[j].0.generation
                    == ticks[i].0.generation;
            assert(ticks[j].0.generation == monitors[j].generation);
            assert(i == j) by {
                if i < j {
                    assert(monitors[i].generation != monitors[j].generation);
                } else if j < i {
                    assert(monitors[j].generation != monitors[i].generation);
                }
            }
        }
    }
    lemma_kept_members(ticks, ticks.len());
    lemma_poll_members(ticks);
    let left = kept(ticks, ticks.len());
    assert forall|m: MonitorModel| #[trigger] left.contains(m) implies exists|i: int|
        0 <= i < monitors.len() && (#[trigger] ticks[i]).0 == m && !(ticks[i].1 is Drop) by {
        let k = choose|k: int| 0 <= k < left.len() && left[k] == m;
        let i = choose|i: int|
            0 <= i < ticks.len() && #[trigger] ticks[i].0 == left[k] && !expired(
                ticks,
                ticks[i].0.generation,
            );
        assert(ticks[i].0 == m && !(ticks[i].1 is Drop));
    }
    assert forall|i: int| 0 <= i < ticks.len() implies (#[trigger] ticks[i]).0.generation
        == monitors[i].generation by {}
    assert forall|i: int| 0 <= i < monitors.len() && (#[trigger] ticks[i]).1 is Poll implies polls(
        ticks,
    ).contains((monitors[i].generation, ticks[i].1->Poll_0)) by {
        assert(ticks[i].0.generation == monitors[i].generation);
    }
}

proof fn lemma_kept_members(ticks: Seq<(MonitorModel, TickAction)>, n: nat)
    requires
        n <= ticks.len(),
    ensures
        forall|i: int|
            0 <= i < n && !expired(ticks, (#[trigger] ticks[i]).0.generation) ==> kept(
                ticks,
                n,
            ).contains(ticks[i].0),
        forall|k: int|
            0 <= k < kept(ticks, n).len() ==> exists|i: int|
                0 <= i < n && #[trigger] ticks[i].0 == #[trigger] kept(ticks, n)[k] && !expired(
                    ticks,
                    ticks[i].0.generation,
                ),
    decreases n,
{
    if n > 0 {
        let m = (n - 1) as nat;
        lemma_kept_members(ticks, m);
        let (before, after) = (kept(ticks, m), kept(ticks, n));
        assert forall|i: int|
            0 <= i < n && !expired(ticks, (#[trigger] ticks[i]).0.generation) implies after.contains(
            ticks[i].0,
        ) by {
            if i < m {
                let k = choose|k: int| 0 <= k < before.len() && before[k] == ticks[i].0;
                assert(after[k] == ticks[i].0);
            } else {
                assert(after[after.len() - 1] == ticks[i].0);
            }
        }
        assert forall|k: int| 0 <= k < after.len() implies exists|i: int|
            0 <= i < n && #[trigger] ticks[i].0 == #[trigger] after[k] && !expired(
                ticks,
                ticks[i].0.generation,
            ) by {
            if k < before.len() {
                assert(after[k] == before[k]);
                let i = choose|i: int|
                    0 <= i < m && #[trigger] ticks[i].0 == before[k] && !expired(
                        ticks,
                        ticks[i].0.generation,
                    );
                assert(ticks[i].0 == after[k]);
            } else {
                assert(ticks[n - 1].0 == after[k]);
            }
        }
    }
}

proof fn lemma_poll_members(ticks: Seq<(MonitorModel, TickAction)>)
    ensures
        forall|i: int|
            0 <= i < ticks.len() && (#[trigger] ticks[i]).1 is Poll ==> polls(ticks).contains(
                (ticks[i].0.generation, ticks[i].1->Poll_0),
            ),
        forall|poll: (u64, i64)| #[trigger]
            polls(ticks).contains(poll) ==> exists|i: int|
                0 <= i < ticks.len() && (#[trigger] ticks[i]).1 == TickAction::Poll(poll.1)
                    && ticks[i].0.generation == poll.0,
    decreases ticks.len(),
{
    if ticks.len() > 0 {
        let rest = ticks.drop_last();
        lemma_poll_members(rest);
        let (before, after) = (polls(rest), polls(ticks));
        assert forall|i: int| 0 <= i < rest.len() implies rest[i] == #[trigger] ticks[i] by {}
        assert forall|i: int| 0 <= i < ticks.len() && (#[trigger] ticks[i]).1 is Poll implies
            after.contains((ticks[i].0.generation, ticks[i].1->Poll_0)) by {
            if i < rest.len() {
                assert(rest[i] == ticks[i]);
                let k = choose|k: int|
                    0 <= k < before.len() && before[k] == (
                        ticks[i].0.generation,
                        ticks[i].1->Poll_0,
                    );
                assert(after[k] == before[k]);
            } else {
                assert(after[after.len() - 1] == (ticks[i].0.generation, ticks[i].1->Poll_0));
            }
        }
        assert forall|poll: (u64, i64)| #[trigger] after.contains(poll) implies exists|i: int|
            0 <= i < ticks.len() && (#[trigger] ticks[i]).1 == TickAction::Poll(poll.1)
                && ticks[i].0.generation == poll.0 by {
            let k = choose|k: int| 0 <= k < after.len() && after[k] == poll;
            if k < before.len() {
                assert(before[k] == poll);
                assert(before.contains(poll));
                let i = choose|i: int|
                    0 <= i < rest.len() && (#[trigger] rest[i]).1 == TickAction::Poll(poll.1)
                        && rest[i].0.generation == poll.0;
                assert(ticks[i] == rest[i]);
            } else {
                assert(ticks[ticks.len() - 1].1 == TickAction::Poll(poll.1));
            }
        }
    }
}

proof fn lemma_monitor_at(monitors: Seq<MonitorModel>, generation: u64)
    ensures
        match monitor_at(monitors, generation) {
            Some(i) => {
                &&& 0 <= i < monitors.len()
                &&& monitors[i].generation == generation
                &&& forall|j: int|
                    0 <= j < i ==> (#[trigger] monitors[j]).generation != generation
            },
            None => forall|j: int|
                0 <= j < monitors.len() ==> (#[trigger] monitors[j]).generation != generation,
        },
    decreases monitors.len(),
{
    if monitors.len() > 0 && monitors[0].generation != generation {
        let rest = monitors.drop_first();
        lemma_monitor_at(rest, generation);
        match monitor_at(rest, generation) {
            Some(i) => {
                assert(monitors[i + 1] == rest[i]);
                assert forall|j: int| 0 <= j < i + 1 implies (#[trigger] monitors[j]).generation
                    != generation by {
                    if j > 0 {
                        assert(rest[j - 1] == monitors[j]);
                    }
                }
            },
            None => {
                assert forall|j: int| 0 <= j < monitors.len() implies (
                #[trigger] monitors[j]).generation != generation by {
                    if j > 0 {
                        assert(rest[j - 1] == monitors[j]);
                    }
                }
            },
        }
    }
}

/// An answer reaches the monitor of its generation and no other: a command with
/// an id starts its search, one without fails it, a lost poll is made good, and
/// a rejected key takes the monitor away. An answer for no monitor is dropped.
pub proof fn law_answers_reach_their_monitor(
    monitors: Seq<MonitorModel>,
    at: int,
    generation: u64,
    result: Result<Command, Error>,
)
    requires
        0 <= at < monitors.len(),
        monitors[at].generation == generation,
        forall|j: int| 0 <= j < at ==> (#[trigger] monitors[j]).generation != generation,
    ensures
        ({
            let t = with_started(monitors, generation, result);
            match result {
                Ok(command) => {
                    &&& t.len() == monitors.len()
                    &&& forall|j: int|
                        0 <= j < monitors.len() && j != at ==> #[trigger] t[j] == monitors[j]
                    &&& command.id > 0 ==> t[at] == monitors[at].after_started(command.id)
                    &&& command.id <= 0 ==> t[at].phase == Phase::Done(Outcome::Failed)
                    &&& t[at].generation == generation
                    &&& t[at].title == monitors[at].title
                },
                Err(err) => if err is Unauthorized {
                    t == monitors.take(at) + monitors.skip(at + 1)
                } else {
                    &&& t.len() == monitors.len()
                    &&& forall|j: int|
                        0 <= j < monitors.len() && j != at ==> #[trigger] t[j] == monitors[j]
                    &&& t[at].phase == Phase::Done(Outcome::Failed)
                    &&& t[at].title == monitors[at].title
                },
            }
        }),
        ({
            let t = with_polled(monitors, generation, result);
            match result {
                Ok(command) => {
                    &&& t.len() == monitors.len()
                    &&& forall|j: int|
                        0 <= j < monitors.len() && j != at ==> #[trigger] t[j] == monitors[j]
                    &&& t[at] == monitors[at].after_polled(
                        match command.status {
                            Some(status) => Some(status@),
                            None => None,
                        },
                    )
                },
                Err(err) => if err is Unauthorized {
                    t == monitors.take(at) + monitors.skip(at + 1)
                } else {
                    &&& t.len() == monitors.len()
                    &&& forall|j: int|
                        0 <= j < monitors.len() && j != at ==> #[trigger] t[j] == monitors[j]
                    &&& !t[at].poll_inflight
                    &&& t[at].phase == monitors[at].phase
                    &&& t[at].command_id == monitors[at].command_id
                    &&& t[at].phase_ticks == monitors[at].phase_ticks
                },
            }
        }),
        poll_completes(monitors, generation, result) == (monitors[at].phase is Searching
            && result is Ok && result->Ok_0.status is Some && result->Ok_0.status->0@
            == "completed"@),
        rejects_key(monitors, generation, result) == (result is Err
            && result->Err_0 is Unauthorized),
{
    lemma_monitor_at(monitors, generation);
    assert(monitor_at(monitors, generation) == Some(at)) by {
        match monitor_at(monitors, generation) {
            Some(i) => {
                if i < at {
                    assert(monitors[i].generation != generation);
                } else if at < i {
                    assert(monitors[at].generation != generation);
                }
            },
            None => {
                assert(monitors[at].generation != generation);
            },
        }
    }
    assert(monitors.remove(at) =~= monitors.take(at) + monitors.skip(at + 1));
}

/// An answer that no monitor waits for changes nothing.
pub proof fn law_answers_for_no_monitor_are_dropped(
    monitors: Seq<MonitorModel>,
    generation: u64,
    result: Result<Command, Error>,
)
    requires
        forall|j: int|
            0 <= j < monitors.len() ==> (#[trigger] monitors[j]).generation != generation,
    ensures
        with_started(monitors, generation, result) == monitors,
        with_polled(monitors, generation, result) == monitors,
        !poll_completes(monitors, generation, result),
        !rejects_key(monitors, generation, result),
{
    lemma_monitor_at(monitors, generation);
}

} // verus!
