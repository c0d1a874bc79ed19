use isamedia::app::{KeyCode, KeyEvent, KeyModifiers};
use isamedia::apps::delete_prompt::DeletePrompt;
use isamedia::apps::downloads::Downloads;
use isamedia::apps::jellyfin::browse::Browse as JellyfinBrowse;
use isamedia::apps::radarr::{AppRequest, Msg, RadarrApp, Screen};
use isamedia::apps::settings::{Setting, SettingsApp, SettingsRequest};
use isamedia::apps::sonarr::browse::Browse as SonarrBrowse;
use isamedia::arr::models::QueueItem;
use isamedia::arr::Error;
use isamedia::config::Config;
use isamedia::net::normalize_host;
use isamedia::ui::input::TextInput;
use isamedia::ui::list::{go_round_down, go_round_up};

fn key(code: KeyCode) -> KeyEvent {
    KeyEvent::plain(code)
}

fn with_control(c: char) -> KeyEvent {
    KeyEvent::new(
        KeyCode::Char(c),
        KeyModifiers {
            shift: false,
            control: true,
            alt: false,
            other: false,
        },
    )
}

fn connect(app: &mut RadarrApp, config: &mut Config) {
    let auth_gen = app.auth_gen;
    app.on_event(
        Msg::ConnectDone {
            auth_gen,
            result: Ok("https://radarr.example".into()),
        },
        config,
    );
}

fn radarr() -> (RadarrApp, Config) {
    let mut config = Config::default();
    config.radarr.host = "https://radarr.example".into();
    let mut app = RadarrApp::new(4);
    app.activate(&config);
    (app, config)
}

#[test]
fn normalizing_twice_changes_nothing() {
    for typed in [" https://media.example/base/ ", "http://10.0.0.1:8096"] {
        let once = normalize_host(typed).unwrap();
        assert_eq!(normalize_host(&once).unwrap(), once);
    }
}

#[test]
fn backspace_undoes_a_character() {
    let mut input = TextInput::with_value("ab");
    input.on_key(key(KeyCode::Char('c')));
    assert_eq!(input.value(), "abc");
    input.on_key(key(KeyCode::Backspace));
    assert_eq!(input.value(), "ab");
}

#[test]
fn rounds_undo_each_other() {
    for cursor in 0..3 {
        assert_eq!(go_round_up(go_round_down(cursor, 3), 3), cursor);
        assert_eq!(go_round_down(go_round_up(cursor, 3), 3), cursor);
    }
}

#[test]
fn marking_twice_changes_nothing() {
    let queue = vec![QueueItem {
        id: 5,
        ..Default::default()
    }];
    let mut downloads = Downloads::new();
    downloads.toggle_mark(&queue);
    assert_eq!(downloads.marked(), 1);
    downloads.toggle_mark(&queue);
    assert_eq!(downloads.marked(), 0);
}

#[test]
fn space_twice_changes_nothing() {
    let mut prompt = DeletePrompt::new(1, "Film".into());
    let before = prompt.options();
    prompt.handle_key(key(KeyCode::Char(' ')));
    assert_ne!(prompt.options(), before);
    prompt.handle_key(key(KeyCode::Char(' ')));
    assert_eq!(prompt.options(), before);
}

#[test]
fn a_cancelled_connect_is_dropped() {
    let (mut app, mut config) = radarr();
    let auth_gen = app.auth_gen;
    app.on_key(key(KeyCode::Esc), &config);
    app.on_event(
        Msg::ConnectDone {
            auth_gen,
            result: Ok("https://radarr.example".into()),
        },
        &mut config,
    );
    assert!(matches!(app.screen, Screen::Setup(_)));
}

#[test]
fn generations_go_on_across_sessions() {
    let (mut app, mut config) = radarr();
    connect(&mut app, &mut config);
    let (fetch_gen, counter) = match &app.screen {
        Screen::Browse(b) => (b.gens.fetch, b.gens.counter),
        _ => panic!("expected the browse screen"),
    };
    app.on_event(
        Msg::MoviesLoaded {
            fetch_gen,
            result: Err(Error::Unauthorized),
        },
        &mut config,
    );
    // The next session is opened by the form's connect.
    connect(&mut app, &mut config);
    match &app.screen {
        Screen::Browse(b) => {
            assert!(b.gens.fetch > counter);
            assert!(b.gens.queue > counter);
        }
        _ => panic!("expected the browse screen"),
    }
    app.take_requests();
    // An answer to the first session is stale on the second.
    app.on_event(
        Msg::MoviesLoaded {
            fetch_gen,
            result: Err(Error::Unauthorized),
        },
        &mut config,
    );
    assert!(matches!(app.screen, Screen::Browse(_)));
    assert!(app.take_requests().is_empty());
}

#[test]
fn a_keyring_failure_ends_no_session() {
    let (mut app, mut config) = radarr();
    connect(&mut app, &mut config);
    assert!(matches!(
        app.take_requests().as_slice(),
        [AppRequest::Connect { .. }, AppRequest::SaveConfig]
    ));
    app.on_event(Msg::KeyringError("locked".into()), &mut config);
    match &app.screen {
        Screen::Browse(b) => assert_eq!(b.status.error.as_deref(), Some("locked")),
        _ => panic!("expected the browse screen"),
    }
    assert!(app.take_requests().is_empty());
}

#[test]
fn modified_characters_are_no_shortcuts() {
    let mut sonarr = SonarrBrowse::new(0, 4);
    assert!(sonarr.on_key(with_control('q')).is_none());
    sonarr.on_key(with_control('?'));
    assert!(!sonarr.status.show_full_help);
    let mut jellyfin = JellyfinBrowse::new(0);
    assert!(jellyfin.on_key(with_control('q')).is_none());
    jellyfin.on_key(with_control('?'));
    assert!(!jellyfin.status.show_full_help);
}

#[test]
fn a_stale_save_changes_nothing() {
    let mut config = Config::default();
    let mut settings = SettingsApp::new();
    settings.open(Setting::Radarr, &config);
    for c in "https://r".chars() {
        settings.on_key(key(KeyCode::Char(c)), &mut config);
    }
    settings.on_key(key(KeyCode::Down), &mut config);
    settings.on_key(key(KeyCode::Char('k')), &mut config);
    settings.on_key(key(KeyCode::Down), &mut config);
    settings.on_key(key(KeyCode::Enter), &mut config);
    let save_gen = match settings.take_requests().as_slice() {
        [SettingsRequest::Connect { save_gen, .. }] => *save_gen,
        _ => panic!("expected one connect"),
    };
    // Esc cancels the save, so its answer comes too late.
    settings.on_key(key(KeyCode::Esc), &mut config);
    settings.on_save_done(save_gen, Err("no".into()), &config);
    assert!(settings.take_requests().is_empty());
    assert_eq!(config.radarr.host, "");
}

#[test]
fn a_toggle_changes_the_count_by_one() {
    let queue: Vec<QueueItem> = [5, 6]
        .iter()
        .map(|&id| QueueItem {
            id,
            ..Default::default()
        })
        .collect();
    let mut downloads = Downloads::new();
    downloads.toggle_mark(&queue);
    assert_eq!(downloads.marked(), 1);
    downloads.cursor = 1;
    downloads.toggle_mark(&queue);
    assert_eq!(downloads.marked(), 2);
    downloads.cursor = 2;
    downloads.toggle_mark(&queue);
    assert_eq!(downloads.marked(), 2);
    downloads.cursor = 0;
    downloads.toggle_mark(&queue);
    assert_eq!(downloads.marked(), 1);
}
