use std::sync::Arc;

use isamedia::app::{KeyCode, KeyEvent, ShellRequest};
use isamedia::apps::settings::SettingsApp;
use isamedia::apps::sonarr::browse::{Browse, Level};
use isamedia::apps::sonarr::msg::{CommandKind, Request};
use isamedia::apps::sonarr::{AppRequest, Msg, Screen, SonarrApp};
use isamedia::apps::TAB_CATALOG;
use isamedia::arr::Error;
use isamedia::config::Config;
use isamedia::sonarr::{Episode, Season, Series};

fn key(code: KeyCode) -> KeyEvent {
    KeyEvent::plain(code)
}

fn configured(host: &str) -> Config {
    let mut config = Config::default();
    config.sonarr.host = host.into();
    config
}

fn browse(app: &SonarrApp) -> &Browse {
    match &app.screen {
        Screen::Browse(browse) => browse,
        _ => panic!("expected the browse screen"),
    }
}

/// An app on its browse screen, with nothing asked for.
fn connected(config: &mut Config) -> SonarrApp {
    let mut app = SonarrApp::new(4);
    app.activate(config);
    let auth_gen = app.auth_gen;
    app.on_event(
        Msg::ConnectDone {
            auth_gen,
            result: Ok("https://sonarr.example".into()),
        },
        config,
    );
    app.take_requests();
    app.take_browse_requests();
    app
}

fn type_text(app: &mut SonarrApp, text: &str, config: &Config) {
    for c in text.chars() {
        app.on_key(key(KeyCode::Char(c)), config);
    }
}

#[test]
fn a_first_run_asks_for_a_server_and_stores_its_key() {
    let mut config = Config::default();
    let mut app = SonarrApp::new(4);
    app.activate(&config);
    assert!(matches!(app.screen, Screen::Setup(_)));
    assert!(app.capturing_text());
    assert!(app.take_requests().is_empty());
    type_text(&mut app, "http://tv", &config);
    app.on_key(key(KeyCode::Enter), &config);
    type_text(&mut app, "abc", &config);
    app.on_key(key(KeyCode::Enter), &config);
    let auth_gen = match app.take_requests().as_slice() {
        [AppRequest::Connect {
            auth_gen,
            host,
            api_key: Some(api_key),
        }] => {
            assert_eq!(host, "http://tv");
            assert_eq!(api_key, "abc");
            *auth_gen
        }
        _ => panic!("expected one connect with the typed key"),
    };
    app.on_event(
        Msg::ConnectDone {
            auth_gen,
            result: Ok("http://tv".into()),
        },
        &mut config,
    );
    match app.take_requests().as_slice() {
        [AppRequest::SaveConfig, AppRequest::StoreKey(stored)] => assert_eq!(stored, "abc"),
        _ => panic!("expected the settings and the key to be stored"),
    }
    assert_eq!(config.sonarr.host, "http://tv");
    assert_eq!(
        browse(&app).status.notice,
        Some("connected over plain http://; traffic is unencrypted")
    );
    assert!(matches!(
        app.take_browse_requests().as_slice(),
        [Request::Series { .. }]
    ));
    assert_eq!(
        app.on_key(key(KeyCode::Char('q')), &config),
        Some(ShellRequest::Quit)
    );
}

#[test]
fn a_failed_connect_keeps_what_was_typed() {
    let mut config = Config::default();
    let mut app = SonarrApp::new(4);
    app.activate(&config);
    type_text(&mut app, "https://tv", &config);
    app.on_key(key(KeyCode::Enter), &config);
    type_text(&mut app, "abc", &config);
    app.on_key(key(KeyCode::Enter), &config);
    app.take_requests();
    let auth_gen = app.auth_gen;
    app.on_event(
        Msg::ConnectDone {
            auth_gen,
            result: Err(Error::Http("timed out".into())),
        },
        &mut config,
    );
    match &app.screen {
        Screen::Setup(form) => {
            assert_eq!(form.host.value(), "https://tv");
            assert!(!form.busy);
            assert_eq!(form.error.as_deref(), Some("cannot reach server: timed out"));
        }
        _ => panic!("expected the form"),
    }
    assert!(app.take_requests().is_empty());
    assert_eq!(config.sonarr.host, "");
}

#[test]
fn a_cancelled_connect_cannot_come_back() {
    let mut config = configured("https://sonarr.example");
    let mut app = SonarrApp::new(4);
    app.activate(&config);
    assert!(matches!(app.screen, Screen::Connecting));
    let auth_gen = app.auth_gen;
    app.on_key(key(KeyCode::Esc), &config);
    app.on_event(
        Msg::ConnectDone {
            auth_gen,
            result: Ok("https://sonarr.example".into()),
        },
        &mut config,
    );
    assert!(matches!(app.screen, Screen::Setup(_)));
}

#[test]
fn a_rejected_key_ends_the_session() {
    let mut config = configured("https://sonarr.example");
    let mut app = connected(&mut config);
    let before = browse(&app).gens.counter;
    // Mutations are reported whatever was fetched since.
    app.on_event(
        Msg::CommandDone {
            fetch_gen: 0,
            kind: CommandKind::Grab,
            result: Err(Error::Unauthorized),
        },
        &mut config,
    );
    assert!(matches!(
        app.take_requests().as_slice(),
        [AppRequest::DeleteKey]
    ));
    match &app.screen {
        Screen::Setup(form) => assert_eq!(
            form.error.as_deref(),
            Some("API key rejected, please enter it again")
        ),
        _ => panic!("expected the form"),
    }
    // A result for the old screen is stale; the next screen counts on.
    app.on_event(
        Msg::QueueLoaded {
            queue_gen: before,
            result: Err(Error::Unauthorized),
        },
        &mut config,
    );
    assert!(app.take_requests().is_empty());
    assert_eq!(app.browse_gen, before);
}

#[test]
fn a_hidden_tab_does_not_poll() {
    let mut config = configured("https://sonarr.example");
    let mut app = connected(&mut config);
    let show = Arc::new(Series {
        id: 7,
        title: Some("Show".into()),
        seasons: vec![Season {
            season_number: 1,
            monitored: true,
            file_count: 0,
            episode_count: 1,
        }],
        ..Default::default()
    });
    let fetch_gen = browse(&app).gens.fetch;
    app.on_event(
        Msg::SeriesLoaded {
            fetch_gen,
            result: Ok(vec![show]),
        },
        &mut config,
    );
    app.on_key(key(KeyCode::Enter), &config);
    let queue_gen = browse(&app).gens.queue;
    app.on_event(
        Msg::QueueLoaded {
            queue_gen,
            result: Ok(Vec::new()),
        },
        &mut config,
    );
    app.take_browse_requests();
    app.deactivate();
    for _ in 0..400 {
        app.on_tick();
    }
    assert!(app.take_browse_requests().is_empty());
    app.activate(&config);
    assert!(matches!(
        app.take_browse_requests().as_slice(),
        [Request::Queue { .. }]
    ));
}

#[test]
fn tabs_are_named_as_in_the_catalog() {
    let sonarr = SonarrApp::new(4);
    assert_eq!((sonarr.id(), sonarr.title()), TAB_CATALOG[2]);
    let settings = SettingsApp::new();
    assert_eq!((settings.id(), settings.title()), TAB_CATALOG[3]);
}

#[test]
fn wide_titles_take_two_columns_a_character() {
    let titled = |number: i32, title: &str| {
        Arc::new(Episode {
            season_number: 1,
            episode_number: number,
            title: Some(title.into()),
            monitored: true,
            ..Default::default()
        })
    };
    let mut b = Browse::new(0, 4);
    b.level = Level::Episodes {
        series: Arc::new(Series::default()),
        season: Season {
            season_number: 1,
            monitored: true,
            file_count: 0,
            episode_count: 3,
        },
    };
    b.lists.episodes = vec![titled(1, "xy"), titled(2, "ab"), titled(3, "日本")];
    let rows = b.episode_rows("2024-01-01T00:00:00Z", 100, 10);
    assert_eq!(rows.len(), 3);
    let leader = |row: usize| rows[row][4].text.chars().count();
    assert_eq!(rows[1][2].text, "ab");
    assert_eq!(leader(0), leader(1));
    assert_eq!(leader(1), leader(2) + 2);
    assert!(leader(2) > 0);
}
