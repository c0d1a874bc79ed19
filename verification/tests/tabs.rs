use isamedia::app::{following_gen, modified_char, AppStatus, KeyCode, KeyEvent, KeyModifiers, ShellRequest};
use isamedia::apps::coming_soon::ComingSoonApp;
use isamedia::apps::{order_indices, TAB_CATALOG};

fn known_ids() -> Vec<&'static str> {
    TAB_CATALOG.iter().map(|&(id, _)| id).collect()
}

#[test]
fn order_indices_defaults_to_build_order() {
    assert_eq!(order_indices(&known_ids(), &[]), vec![0, 1, 2, 3]);
}

#[test]
fn order_indices_honours_saved_then_appends_missing() {
    // Settings pulled to the front, Sonarr dropped from the saved list: the
    // missing id is appended in its built-in position.
    let saved = vec!["settings".to_string(), "radarr".to_string()];
    assert_eq!(order_indices(&known_ids(), &saved), vec![3, 1, 0, 2]);
}

#[test]
fn order_indices_ignores_unknown_and_duplicate_ids() {
    let saved = vec![
        "sonarr".to_string(),
        "ghost".to_string(),  // no such tab: skipped
        "sonarr".to_string(), // duplicate: ignored
        "jellyfin".to_string(),
    ];
    assert_eq!(order_indices(&known_ids(), &saved), vec![2, 0, 1, 3]);
}

#[test]
fn a_tab_to_come_only_quits() {
    let mut app = ComingSoonApp::new("lidarr", "Lidarr");
    assert_eq!(app.status(), AppStatus::ComingSoon);
    assert!(app.message().contains("Lidarr"));
    assert_eq!(app.on_key(KeyEvent::plain(KeyCode::Enter)), None);
    assert_eq!(
        app.on_key(KeyEvent::plain(KeyCode::Char('q'))),
        Some(ShellRequest::Quit)
    );
}

#[test]
fn shift_is_no_modifier_of_a_character() {
    let shift = KeyModifiers {
        shift: true,
        ..KeyModifiers::none()
    };
    let alt = KeyModifiers {
        alt: true,
        ..KeyModifiers::none()
    };
    assert!(!modified_char(&KeyEvent::new(KeyCode::Char('G'), shift)));
    assert!(modified_char(&KeyEvent::new(KeyCode::Char('s'), alt)));
    assert!(!modified_char(&KeyEvent::new(KeyCode::Enter, alt)));
}

#[test]
fn generations_start_over_behind_the_largest() {
    assert_eq!(following_gen(7), 8);
    assert_eq!(following_gen(u64::MAX), 0);
}

#[test]
fn a_resolved_order_resolves_to_itself() {
    let known = known_ids();
    for saved in [
        vec![],
        vec!["sonarr".to_string(), "ghost".to_string(), "sonarr".to_string()],
        vec!["settings".to_string(), "jellyfin".to_string()],
    ] {
        let order = order_indices(&known, &saved);
        let ids: Vec<String> = order.iter().map(|&i| known[i].to_string()).collect();
        assert_eq!(order_indices(&known, &ids), order);
    }
}

#[test]
fn tabs_follow_their_first_mention_and_then_build_order() {
    let saved = vec![
        "sonarr".to_string(),
        "radarr".to_string(),
        "sonarr".to_string(),
    ];
    let order = order_indices(&known_ids(), &saved);
    assert_eq!(order[..2], [2, 1]);
    assert_eq!(order[2..], [0, 3]);
}
