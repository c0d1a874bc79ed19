use isamedia::app::{KeyCode, KeyEvent, KeyModifiers};
use isamedia::apps::delete_prompt::{DeleteAction as EntityAction, DeletePrompt};
use isamedia::apps::downloads::{DeleteAction, DownloadRow, Downloads};
use isamedia::arr::models::{Language, QueueItem};
use isamedia::ui::line::{Span, Tone};

fn key(code: KeyCode) -> KeyEvent {
    KeyEvent::new(code, KeyModifiers::none())
}

fn queue(ids: &[i64]) -> Vec<QueueItem> {
    ids.iter()
        .map(|id| QueueItem {
            id: *id,
            ..QueueItem::default()
        })
        .collect()
}

fn at(cursor: usize) -> Downloads {
    let mut d = Downloads::new();
    d.cursor = cursor;
    d
}

fn flat(line: &[Span]) -> String {
    line.iter().map(|s| s.text.as_str()).collect()
}

#[test]
fn defaults_delete_files_on_exclusion_off() {
    let mut prompt = DeletePrompt::new(7, "The Matrix".into());
    match prompt.handle_key(key(KeyCode::Enter)) {
        EntityAction::Commit {
            id,
            delete_files,
            add_exclusion,
        } => {
            assert_eq!(id, 7);
            assert!(delete_files);
            assert!(!add_exclusion);
        }
        _ => panic!("expected commit"),
    }
}

#[test]
fn space_toggles_focused_option() {
    let mut prompt = DeletePrompt::new(1, "Show".into());
    // Focus starts on "delete files" (default on); space turns it off,
    // then down+space turns the exclusion on.
    prompt.handle_key(key(KeyCode::Char(' ')));
    prompt.handle_key(key(KeyCode::Down));
    prompt.handle_key(key(KeyCode::Char(' ')));
    match prompt.handle_key(key(KeyCode::Enter)) {
        EntityAction::Commit {
            delete_files,
            add_exclusion,
            ..
        } => {
            assert!(!delete_files);
            assert!(add_exclusion);
        }
        _ => panic!("expected commit"),
    }
}

#[test]
fn focus_is_clamped_to_the_two_rows() {
    let mut prompt = DeletePrompt::new(1, "Show".into());
    // Up past the top stays on row 0; many downs stop at row 1.
    prompt.handle_key(key(KeyCode::Up));
    assert_eq!(prompt.focus, 0);
    for _ in 0..5 {
        prompt.handle_key(key(KeyCode::Down));
    }
    assert_eq!(prompt.focus, 1);
}

#[test]
fn esc_cancels() {
    let mut prompt = DeletePrompt::new(1, "Show".into());
    assert!(matches!(
        prompt.handle_key(key(KeyCode::Esc)),
        EntityAction::Cancelled
    ));
}

#[test]
fn the_prompt_asks_for_its_title() {
    let mut prompt = DeletePrompt::new(1, "Show".into());
    assert_eq!(prompt.question(), "Delete Show?");
    assert_eq!(
        prompt.options(),
        [("Delete files", true), ("Add import list exclusion", false)]
    );
    assert_eq!(
        prompt.handle_key(key(KeyCode::Tab)),
        EntityAction::Consumed
    );
    assert!(prompt.delete_files);
}

#[test]
fn toggle_mark_flips_the_cursor_row() {
    let q = queue(&[10, 20, 30]);
    let mut d = at(1);
    d.toggle_mark(&q);
    assert_eq!(d.marked(), 1);
    d.toggle_mark(&q);
    assert_eq!(d.marked(), 0);
}

#[test]
fn begin_delete_falls_back_to_cursor_row() {
    let q = queue(&[10, 20, 30]);
    let mut d = at(2);
    d.begin_delete(&q);
    assert!(d.is_prompting());
    // Committing yields exactly the highlighted id.
    match d.handle_prompt_key(key(KeyCode::Enter)) {
        DeleteAction::Commit { ids, .. } => assert_eq!(ids, vec![30]),
        _ => panic!("expected commit"),
    }
    assert!(!d.is_prompting());
}

#[test]
fn begin_delete_targets_marked_in_queue_order() {
    let q = queue(&[10, 20, 30]);
    let mut d = Downloads::new();
    d.toggle_mark(&q); // cursor 0 -> marks 10
    d.cursor = 2;
    d.toggle_mark(&q); // marks 30
    d.begin_delete(&q);
    match d.handle_prompt_key(key(KeyCode::Enter)) {
        DeleteAction::Commit { ids, .. } => assert_eq!(ids, vec![10, 30]),
        _ => panic!("expected commit"),
    }
}

#[test]
fn begin_delete_is_a_noop_on_empty_queue() {
    let mut d = Downloads::new();
    d.begin_delete(&[]);
    assert!(!d.is_prompting());
}

#[test]
fn prune_drops_marks_that_left_the_queue() {
    let q = queue(&[10, 20, 30]);
    let mut d = Downloads::new();
    for cursor in 0..3 {
        d.cursor = cursor;
        d.toggle_mark(&q);
    }
    assert_eq!(d.marked(), 3);
    d.prune(&queue(&[20]));
    assert_eq!(d.marked(), 1);
}

#[test]
fn prompt_space_toggles_focused_option_and_esc_cancels() {
    let q = queue(&[10]);
    let mut d = Downloads::new();
    d.begin_delete(&q);
    // Focus starts on "remove from client" (default true); space turns it
    // off, then down+space turns blocklist on.
    d.handle_prompt_key(key(KeyCode::Char(' ')));
    d.handle_prompt_key(key(KeyCode::Down));
    d.handle_prompt_key(key(KeyCode::Char(' ')));
    match d.handle_prompt_key(key(KeyCode::Enter)) {
        DeleteAction::Commit {
            remove_from_client,
            blocklist,
            ..
        } => {
            assert!(!remove_from_client);
            assert!(blocklist);
        }
        _ => panic!("expected commit"),
    }

    d.begin_delete(&q);
    assert!(matches!(
        d.handle_prompt_key(key(KeyCode::Esc)),
        DeleteAction::Cancelled
    ));
    assert!(!d.is_prompting());
}

#[test]
fn the_cursor_is_clamped_to_the_queue() {
    let mut d = at(7);
    d.clamp(3);
    assert_eq!(d.cursor, 2);
    d.clamp(0);
    assert_eq!(d.cursor, 0);
}

#[test]
fn a_reset_forgets_marks_and_prompt() {
    let q = queue(&[10, 20]);
    let mut d = at(1);
    d.toggle_mark(&q);
    d.begin_delete(&q);
    d.reset();
    assert_eq!((d.cursor, d.marked(), d.is_prompting()), (0, 0, false));
}

#[test]
fn a_download_row_shows_state_and_meta() {
    let item = QueueItem {
        id: 10,
        progress: 63,
        tracked_download_state: Some("downloading".into()),
        tracked_download_status: Some("warning".into()),
        languages: vec![Language {
            name: Some("Japanese".into()),
        }],
        timeleft: Some("00:12:30".into()),
        ..QueueItem::default()
    };
    let row = DownloadRow {
        name: "Dune".into(),
        ..DownloadRow::default()
    };
    let mut d = Downloads::new();
    d.toggle_mark(&[QueueItem {
        id: 10,
        ..QueueItem::default()
    }]);
    let entry = d.entry(&item, &row, true, 80);
    assert!(flat(&entry.title).contains("Dune"));
    assert!(flat(&entry.right).contains("downloading 63%"));
    assert_eq!(entry.right[0].tone, Tone::AccentColor);
    assert_eq!(entry.below.len(), 1);
    assert!(flat(&entry.below[0]).contains("Japanese"));
    assert!(flat(&entry.below[0]).contains("00:12:30"));
}
