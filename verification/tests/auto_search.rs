use std::collections::HashSet;

use isamedia::apps::auto_search::{
    search_polled, search_started, status_line, tick_round, Monitor, Outcome, Phase, TickAction,
    CLEAR_TICKS, CONFIRM_GRACE_TICKS, POLL_TICKS, TIMEOUT_TICKS,
};
use isamedia::arr::models::Command;
use isamedia::arr::Error;
use isamedia::ui::line::{Span, Tone};

fn monitor() -> Monitor {
    Monitor::new(1, 42, "Dune (2021)".into(), HashSet::new())
}

fn flat(line: &[Span]) -> String {
    line.iter().map(|s| s.text.as_str()).collect()
}

#[test]
fn added_when_a_new_queue_item_appears() {
    let mut m = monitor();
    m.started(7);
    assert!(m.polled(Some("completed"))); // -> Confirming, asks for a queue refresh
    // A new (non-baseline) queue item confirms the grab on the next tick.
    match m.tick(1) {
        TickAction::Idle => {}
        _ => panic!("expected idle after resolving"),
    }
    assert!(!m.is_active());
    let line = status_line("Radarr", std::slice::from_ref(&m)).unwrap();
    assert!(format!("{line:?}").contains("added to queue"));
}

#[test]
fn nothing_found_after_the_grace_window() {
    let mut m = monitor();
    m.started(7);
    assert!(m.polled(Some("completed")));
    // No queue item ever appears; after the grace window it concludes empty.
    let mut concluded = false;
    for _ in 0..CONFIRM_GRACE_TICKS + 1 {
        m.tick(0);
        if !m.is_active() {
            concluded = true;
            break;
        }
    }
    assert!(concluded);
    let line = status_line("Radarr", std::slice::from_ref(&m)).unwrap();
    assert!(format!("{line:?}").contains("no releases found"));
}

#[test]
fn polls_on_cadence_while_searching() {
    let mut m = monitor();
    m.started(7);
    // No poll until the cadence tick; then exactly one, then none until the
    // in-flight flag is cleared.
    for _ in 0..POLL_TICKS - 1 {
        assert!(matches!(m.tick(0), TickAction::Idle));
    }
    assert!(matches!(m.tick(0), TickAction::Poll(7)));
    assert!(matches!(m.tick(0), TickAction::Idle)); // poll_inflight blocks a second
}

#[test]
fn done_monitor_drops_after_clearing() {
    let mut m = monitor();
    m.failed_to_start();
    assert!(!m.is_active());
    let mut dropped = false;
    for _ in 0..CLEAR_TICKS + 1 {
        if matches!(m.tick(0), TickAction::Drop) {
            dropped = true;
            break;
        }
    }
    assert!(dropped);
}

#[test]
fn times_out_when_the_command_never_completes() {
    let mut m = monitor();
    m.started(7);
    let mut timed_out = false;
    for _ in 0..TIMEOUT_TICKS + 1 {
        m.clear_poll_inflight(); // pretend every poll comes back "started"
        m.tick(0);
        if !m.is_active() {
            timed_out = true;
            break;
        }
    }
    assert!(timed_out);
    let line = status_line("Radarr", std::slice::from_ref(&m)).unwrap();
    assert!(format!("{line:?}").contains("timed out"));
}

#[test]
fn summarises_multiple_active_searches() {
    let a = Monitor::new(1, 1, "Dune".into(), HashSet::new());
    let b = Monitor::new(2, 2, "Tenet".into(), HashSet::new());
    let line = status_line("Radarr", &[a, b]).unwrap();
    assert!(format!("{line:?}").contains("searching 2 titles"));
}

#[test]
fn one_active_search_names_its_title() {
    let line = status_line("Sonarr", &[monitor()]).unwrap();
    assert_eq!(flat(&line), " Sonarr: searching for Dune (2021)...");
    assert_eq!(line[0].tone, Tone::Accent);
    assert!(status_line("Sonarr", &[]).is_none());
}

#[test]
fn a_finished_search_counts_the_others() {
    let mut done = monitor();
    done.failed_to_start();
    let line = status_line("Radarr", &[done, monitor()]).unwrap();
    assert_eq!(flat(&line), " Radarr: search failed for Dune (2021)  (+1 searching)");
}

#[test]
fn baseline_downloads_are_told_apart() {
    let baseline: HashSet<i64> = [5].into_iter().collect();
    let m = Monitor::new(1, 42, "Dune".into(), baseline);
    assert!(m.is_baseline(5));
    assert!(!m.is_baseline(6));
}

#[test]
fn a_command_that_fails_ends_the_search() {
    let mut m = monitor();
    m.started(7);
    assert!(!m.polled(Some("failed")));
    assert_eq!(m.phase, Phase::Done(Outcome::Failed));
    // What a late poll says no longer matters.
    assert!(!m.polled(Some("completed")));
    assert_eq!(m.phase, Phase::Done(Outcome::Failed));
}

#[test]
fn a_round_drops_expired_monitors_and_gathers_polls() {
    let mut searching = monitor();
    searching.started(7);
    for _ in 0..POLL_TICKS - 1 {
        searching.tick(0);
    }
    let mut expired = Monitor::new(2, 43, "Tenet".into(), HashSet::new());
    expired.failed_to_start();
    for _ in 0..CLEAR_TICKS - 1 {
        expired.tick(0);
    }
    let round = tick_round(vec![searching, expired], &vec![0, 0]);
    assert_eq!(round.monitors.len(), 1);
    assert_eq!(round.polls, vec![(1, 7)]);
    assert!(!round.want_queue);
}

fn command(id: i64, status: &str) -> Command {
    Command {
        id,
        status: Some(status.into()),
    }
}

#[test]
fn answers_reach_their_own_monitor() {
    let mut monitors = vec![
        monitor(),
        Monitor::new(2, 43, "Tenet".into(), HashSet::new()),
    ];
    assert!(!search_started(&mut monitors, 2, Ok(command(9, "queued"))));
    assert_eq!(monitors[0].command_id, None);
    assert_eq!(monitors[1].command_id, Some(9));
    assert_eq!(
        search_polled(&mut monitors, 2, Ok(command(9, "completed"))),
        (true, false)
    );
    assert_eq!(monitors[0].phase, Phase::Starting);
    assert_eq!(monitors[1].phase, Phase::Confirming);
    // Nobody awaits this one.
    assert_eq!(
        search_polled(&mut monitors, 3, Err(Error::Unauthorized)),
        (false, false)
    );
    assert_eq!(monitors.len(), 2);
}

#[test]
fn a_rejected_key_ends_the_search_for_good() {
    let mut monitors = vec![monitor()];
    assert!(search_started(&mut monitors, 1, Err(Error::Unauthorized)));
    assert!(monitors.is_empty());
}

#[test]
fn a_lost_poll_is_asked_again() {
    let mut m = monitor();
    m.started(7);
    for _ in 0..POLL_TICKS {
        m.tick(0);
    }
    assert!(m.poll_inflight);
    let mut monitors = vec![m];
    assert_eq!(
        search_polled(&mut monitors, 1, Err(Error::Http("gone".into()))),
        (false, false)
    );
    assert!(!monitors[0].poll_inflight);
    assert!(monitors[0].is_active());
}
