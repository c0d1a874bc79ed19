use std::sync::Arc;

use isamedia::app::{KeyCode, KeyEvent, ShellRequest};
use isamedia::apps::jellyfin::browse::{Browse, BrowseAction, ItemsResponse, SeriesView};
use isamedia::apps::jellyfin::library::{LibraryKind, LibraryLevel, Tab};
use isamedia::apps::jellyfin::login::LoginForm;
use isamedia::apps::jellyfin::msg::{Request, Source};
use isamedia::apps::jellyfin::playback::{
    format_clock, password_failure, password_step, token_failure, with_secrets, PasswordStep,
    PlayerEvent, Session, TrackKind,
};
use isamedia::apps::jellyfin::view::{
    episode_info_lines, item_info_lines, series_header_lines, Body,
};
use isamedia::apps::jellyfin::{AppRequest, JellyfinApp, Msg, Screen};
use isamedia::config::{Config, LanguageOverrides, TrackPreference};
use isamedia::jellyfin::{Error, ItemKind, MediaItem, UserData};
use isamedia::ui::line::{Span, Tone};

fn key(code: KeyCode) -> KeyEvent {
    KeyEvent::plain(code)
}

fn flat(line: &[Span]) -> String {
    line.iter().map(|s| s.text.as_str()).collect()
}

fn app() -> JellyfinApp {
    JellyfinApp::new(LanguageOverrides::new(), 0)
}

fn configured() -> Config {
    let mut config = Config::default();
    config.jellyfin.host = "https://jelly.example".into();
    config.jellyfin.username = "alice".into();
    config
}

fn session() -> Session {
    Session {
        host: "https://jelly.example".into(),
        user_id: "u1".into(),
        token: "t1".into(),
    }
}

fn movie(id: &str) -> Arc<MediaItem> {
    Arc::new(MediaItem {
        id: id.into(),
        name: Some(id.to_uppercase()),
        kind: ItemKind::Movie,
        ..Default::default()
    })
}

fn episode(series: &str, season: i32, number: i32, played: bool) -> Arc<MediaItem> {
    Arc::new(MediaItem {
        id: format!("{series}-{season}-{number}"),
        name: Some(format!("Part {number}")),
        kind: ItemKind::Episode,
        series_id: Some(series.into()),
        series_name: Some(series.to_uppercase()),
        parent_index_number: Some(season),
        index_number: Some(number),
        user_data: Some(UserData {
            played: Some(played),
            progress: if played { None } else { Some("42".into()) },
        }),
        ..Default::default()
    })
}

/// An app on its browse screen, with its requests taken.
fn browsing(config: &mut Config) -> JellyfinApp {
    let mut jf = app();
    jf.activate(0, config);
    let auth_gen = jf.auth_gen;
    jf.on_event(
        Msg::AuthDone {
            auth_gen,
            result: Ok(session()),
        },
        config,
    );
    jf.take_requests();
    jf
}

fn browse(jf: &JellyfinApp) -> &Browse {
    match &jf.screen {
        Screen::Browse(browse) => browse,
        _ => panic!("expected the browse screen"),
    }
}

/// Answer the browse screen's fetch with a list.
fn load(jf: &mut JellyfinApp, items: Vec<Arc<MediaItem>>, config: &mut Config) {
    let fetch_gen = browse(jf).gens.fetch;
    jf.on_event(
        Msg::ItemsLoaded {
            fetch_gen,
            result: Ok(items),
        },
        config,
    );
    jf.take_browse_requests();
}

#[test]
fn reauth_signal_is_consumed_without_disturbing_non_browse() {
    let config = Config::default();
    let mut jf = app();
    // Sit on the login screen, as after a prior session-expiry.
    jf.screen = Screen::Login(LoginForm::from_config(&config.jellyfin));

    // Settings re-authenticated while we were away; returning to the tab
    // must consume the signal but leave the login form in place.
    jf.activate(1, &config);
    assert!(
        matches!(jf.screen, Screen::Login(_)),
        "a non-Browse screen must be left alone"
    );
    assert_eq!(jf.seen_reauth, 1, "the signal must be consumed once");

    // Idempotent: with no new signal, activate is a no-op.
    jf.activate(1, &config);
    assert!(matches!(jf.screen, Screen::Login(_)));
    assert_eq!(jf.seen_reauth, 1);
}

#[test]
fn on_removed_resets_to_boot_and_consumes_reauth() {
    let mut config = Config::default();
    config.jellyfin.host = "https://jelly.example".into();
    config.jellyfin.username = "alice".into();
    let mut jf = app();
    assert!(jf.is_configured(&config));
    jf.screen = Screen::Login(LoginForm::from_config(&config.jellyfin));
    let auth_gen = jf.auth_gen;
    let player_gen = jf.player_gen;

    // Settings removed the backend and (on an earlier save) had bumped the
    // reauth signal; the reset must swallow it and invalidate in-flight work.
    config.jellyfin.host.clear();
    jf.on_removed(1);

    assert!(!jf.is_configured(&config));
    assert!(matches!(jf.screen, Screen::Boot), "must return to Boot");
    assert!(jf.auth_gen > auth_gen, "in-flight auth must land stale");
    assert!(jf.player_gen > player_gen, "player events must land stale");
    assert_eq!(jf.seen_reauth, 1, "a pending reauth signal is swallowed");
}

#[test]
fn a_live_session_reconnects_for_a_reauth() {
    let mut config = configured();
    let mut jf = browsing(&mut config);
    jf.activate(1, &config);
    assert!(matches!(jf.screen, Screen::Connecting));
    match jf.take_requests().as_slice() {
        [AppRequest::Connect {
            stored_secrets,
            credentials,
            ..
        }] => {
            assert!(*stored_secrets);
            assert_eq!(credentials.user_id, "u1");
        }
        _ => panic!("expected one connect"),
    }
    jf.activate(1, &config);
    assert!(jf.take_requests().is_empty());
}

#[test]
fn a_login_is_persisted_and_warned_about() {
    let mut config = configured();
    let mut jf = app();
    jf.activate(0, &config);
    assert_eq!(jf.take_requests().len(), 1);
    let auth_gen = jf.auth_gen;
    let mut plain = session();
    plain.host = "http://jelly.example".into();
    jf.on_event(
        Msg::AuthDone {
            auth_gen,
            result: Ok(plain),
        },
        &mut config,
    );
    assert_eq!(config.jellyfin.user_id, "u1");
    match jf.take_requests().as_slice() {
        [AppRequest::SaveConfig, AppRequest::StoreSession { token, password }] => {
            assert_eq!(token, "t1");
            assert!(password.is_none());
        }
        _ => panic!("expected the session to be stored"),
    }
    assert_eq!(
        browse(&jf).message_row().map(|s| s.text).as_deref(),
        Some("connected over plain http://; traffic is unencrypted")
    );
    assert!(matches!(
        jf.take_browse_requests().as_slice(),
        [Request::Items { .. }]
    ));
}

#[test]
fn a_typed_login_stores_what_was_typed() {
    let mut config = Config::default();
    let mut jf = app();
    jf.activate(0, &config);
    assert!(jf.capturing_text());
    for c in "https://j".chars() {
        jf.on_key(key(KeyCode::Char(c)), &config);
    }
    jf.on_key(key(KeyCode::Down), &config);
    jf.on_key(key(KeyCode::Char('a')), &config);
    jf.on_key(key(KeyCode::Down), &config);
    jf.on_key(key(KeyCode::Char('p')), &config);
    jf.on_key(key(KeyCode::Down), &config);
    jf.on_key(key(KeyCode::Enter), &config);
    match jf.take_requests().as_slice() {
        [AppRequest::Connect {
            credentials,
            stored_secrets,
            ..
        }] => {
            assert!(!*stored_secrets);
            assert_eq!(credentials.host, "https://j");
            assert_eq!(credentials.username, "a");
            assert_eq!(credentials.password, "p");
            assert_eq!(credentials.user_id, "");
        }
        _ => panic!("expected one connect"),
    }
    let auth_gen = jf.auth_gen;
    jf.on_event(
        Msg::AuthDone {
            auth_gen,
            result: Ok(session()),
        },
        &mut config,
    );
    assert_eq!(config.jellyfin.host, "https://j");
    assert_eq!(config.jellyfin.username, "a");
    assert!(jf.take_requests().iter().any(|r| matches!(
        r,
        AppRequest::StoreSession { password: Some(p), .. } if p == "p"
    )));
}

#[test]
fn a_failed_login_says_why() {
    let mut config = configured();
    let mut jf = app();
    jf.activate(0, &config);
    let auth_gen = jf.auth_gen;
    jf.on_event(
        Msg::AuthDone {
            auth_gen,
            result: Err(Error::Unauthorized),
        },
        &mut config,
    );
    match &jf.screen {
        Screen::Login(form) => {
            assert_eq!(form.error.as_deref(), Some("authentication failed"));
            assert!(!form.busy);
        }
        _ => panic!("expected the login form"),
    }
}

#[test]
fn a_cancelled_login_never_comes_back() {
    let mut config = configured();
    let mut jf = app();
    jf.activate(0, &config);
    let auth_gen = jf.auth_gen;
    jf.on_key(key(KeyCode::Esc), &config);
    assert!(matches!(jf.screen, Screen::Login(_)));
    jf.on_event(
        Msg::AuthDone {
            auth_gen,
            result: Ok(session()),
        },
        &mut config,
    );
    assert!(matches!(jf.screen, Screen::Login(_)));
    assert_eq!(config.jellyfin.user_id, "");
}

#[test]
fn q_quits_while_connecting() {
    let config = configured();
    let mut jf = app();
    jf.activate(0, &config);
    assert_eq!(
        jf.on_key(key(KeyCode::Char('q')), &config),
        Some(ShellRequest::Quit)
    );
}

#[test]
fn playback_starts_and_asks_before_it_is_replaced() {
    let mut config = configured();
    config.jellyfin.skip_segments = vec!["Intro".into()];
    let mut jf = browsing(&mut config);
    load(&mut jf, vec![movie("a"), movie("b")], &mut config);
    jf.on_key(key(KeyCode::Enter), &config);
    let first = jf.player_gen;
    match jf.take_requests().as_slice() {
        [AppRequest::Play {
            player_gen,
            item,
            skip_segments,
            prefs,
        }] => {
            assert_eq!(*player_gen, first);
            assert_eq!(item.id, "a");
            assert_eq!(skip_segments, &vec!["Intro".to_string()]);
            assert!(prefs.audio.is_none());
        }
        _ => panic!("expected a playback"),
    }
    assert!(!jf.ready_to_quit());

    // A second item waits for an answer.
    jf.on_key(key(KeyCode::Down), &config);
    jf.on_key(key(KeyCode::Enter), &config);
    assert_eq!(jf.question(), Some("Replace current playback?"));
    assert!(jf.take_requests().is_empty());
    // Enter opened the question, so it does not answer it.
    jf.on_key(key(KeyCode::Enter), &config);
    assert!(jf.question().is_some());
    jf.on_key(key(KeyCode::Char('y')), &config);
    assert!(jf.question().is_none());
    match jf.take_requests().as_slice() {
        [AppRequest::StopPlayer { player_gen }, AppRequest::Play { item, .. }] => {
            assert_eq!(*player_gen, first);
            assert_eq!(item.id, "b");
        }
        _ => panic!("expected the player to be replaced"),
    }

    // The old player's exit is stale.
    jf.on_event(
        Msg::Player {
            player_gen: first,
            event: PlayerEvent::Exited,
        },
        &mut config,
    );
    assert!(jf.player.is_some());
}

#[test]
fn the_bar_follows_the_player() {
    let mut config = configured();
    let mut jf = browsing(&mut config);
    load(&mut jf, vec![movie("a")], &mut config);
    assert!(jf.status_line().is_none());
    jf.on_key(key(KeyCode::Enter), &config);
    let player_gen = jf.player_gen;
    for event in [
        PlayerEvent::Started {
            title: "Dune".into(),
        },
        PlayerEvent::Position { secs: 754 },
        PlayerEvent::Duration { secs: 9_321 },
    ] {
        jf.on_event(Msg::Player { player_gen, event }, &mut config);
    }
    let line = jf.status_line().unwrap();
    assert_eq!(flat(&line), " ⏵ Dune  12:34 / 2:35:21  s: stop");
    assert_eq!(line[1].tone, Tone::Accent);

    assert!(jf.stop_player());
    assert!(matches!(
        jf.take_requests().last(),
        Some(AppRequest::StopPlayer { .. })
    ));
    assert!(jf.on_quit());
    jf.on_event(
        Msg::Player {
            player_gen,
            event: PlayerEvent::Exited,
        },
        &mut config,
    );
    assert!(jf.ready_to_quit());
    assert!(!jf.stop_player());
    assert!(!jf.on_quit());
    assert!(jf.status_line().is_none());
    // The list is fetched anew.
    assert!(!jf.take_browse_requests().is_empty());
}

#[test]
fn a_switched_track_is_used_next_time() {
    let mut config = configured();
    let mut jf = browsing(&mut config);
    load(&mut jf, vec![episode("s1", 1, 1, false)], &mut config);
    jf.on_key(key(KeyCode::Enter), &config);
    let player_gen = jf.player_gen;
    jf.take_requests();
    jf.on_event(
        Msg::Player {
            player_gen,
            event: PlayerEvent::TrackSwitched {
                override_key: "s1".into(),
                kind: TrackKind::Subtitle,
                selection: TrackPreference::Off,
            },
        },
        &mut config,
    );
    assert!(matches!(
        jf.take_requests().as_slice(),
        [AppRequest::SaveOverrides]
    ));
    jf.on_event(
        Msg::Player {
            player_gen,
            event: PlayerEvent::Exited,
        },
        &mut config,
    );
    load(&mut jf, vec![episode("s1", 1, 1, false)], &mut config);
    jf.on_key(key(KeyCode::Enter), &config);
    match jf.take_requests().as_slice() {
        [AppRequest::Play { prefs, .. }] => {
            assert_eq!(prefs.subtitles, Some(TrackPreference::Off));
            assert!(prefs.audio.is_none());
        }
        _ => panic!("expected a playback"),
    }
}

#[test]
fn an_ended_session_stops_and_forgets() {
    let mut config = configured();
    let mut jf = browsing(&mut config);
    load(&mut jf, vec![movie("a")], &mut config);
    jf.on_key(key(KeyCode::Enter), &config);
    jf.take_requests();
    let gens = browse(&jf).gens;
    jf.on_event(
        Msg::WatchedToggled {
            fetch_gen: 0,
            result: Err(Error::Unauthorized),
        },
        &mut config,
    );
    assert_eq!(config.jellyfin.user_id, "");
    assert!(jf.player.is_none());
    match jf.take_requests().as_slice() {
        [AppRequest::StopPlayer { .. }, AppRequest::SaveConfig, AppRequest::DeleteToken] => {}
        _ => panic!("expected the session to be taken down"),
    }
    match &jf.screen {
        Screen::Login(form) => assert_eq!(
            form.error.as_deref(),
            Some("session expired, please log in again")
        ),
        _ => panic!("expected the login form"),
    }
    assert_eq!(jf.browse_gen, gens.counter);
}

#[test]
fn playback_failures_and_keyring_trouble_are_shown() {
    let mut config = configured();
    let mut jf = browsing(&mut config);
    let player_gen = jf.player_gen;
    jf.on_event(
        Msg::Player {
            player_gen,
            event: PlayerEvent::Failed("mpv not found".into()),
        },
        &mut config,
    );
    assert_eq!(
        browse(&jf).message_row().map(|s| s.text).as_deref(),
        Some("Error: mpv not found")
    );
    jf.on_event(
        Msg::KeyringError(token_failure("locked")),
        &mut config,
    );
    assert!(browse(&jf)
        .status
        .error
        .as_deref()
        .unwrap()
        .starts_with("failed to store token in system keyring"));
    assert_eq!(
        password_failure("locked"),
        "failed to store password in system keyring: locked"
    );
}

#[test]
fn clocks_show_hours_only_where_there_are_any() {
    assert_eq!(format_clock(5_025), "1:23:45");
    assert_eq!(format_clock(1_425), "23:45");
    assert_eq!(format_clock(0), "0:00");
    assert_eq!(format_clock(3_599), "59:59");
    assert_eq!(format_clock(3_600), "1:00:00");
}

#[test]
fn an_empty_password_is_not_kept() {
    assert!(matches!(password_step(None), PasswordStep::Keep));
    assert!(matches!(
        password_step(Some(String::new())),
        PasswordStep::Delete("jellyfin-password")
    ));
    assert!(matches!(
        password_step(Some("p".into())),
        PasswordStep::Store("jellyfin-password", p) if p == "p"
    ));
}

#[test]
fn stored_secrets_fill_the_credentials() {
    let mut config = configured();
    config.jellyfin.device = "box".into();
    let mut jf = app();
    jf.activate(0, &config);
    for request in jf.take_requests() {
        if let AppRequest::Connect { credentials, .. } = request {
            let filled = with_secrets(credentials, Some("t".into()), None);
            assert_eq!(filled.token, "t");
            assert_eq!(filled.password, "");
            assert_eq!(filled.device, "box");
            return;
        }
    }
    panic!("expected a connect");
}

#[test]
fn drilling_into_a_series_shows_its_seasons() {
    let mut config = configured();
    let mut jf = browsing(&mut config);
    let series = Arc::new(MediaItem {
        id: "s1".into(),
        name: Some("The Expanse".into()),
        kind: ItemKind::Series,
        production_year: Some(2015),
        rating: Some("8.4".into()),
        ..Default::default()
    });
    load(&mut jf, vec![series], &mut config);
    jf.on_key(key(KeyCode::Enter), &config);
    assert!(matches!(
        jf.take_browse_requests().as_slice(),
        [Request::Items {
            source: Source::Episodes(_),
            ..
        }]
    ));
    load(
        &mut jf,
        vec![
            episode("s1", 1, 1, true),
            episode("s1", 1, 2, true),
            episode("s1", 2, 1, false),
        ],
        &mut config,
    );
    let seasons: Vec<String> = browse(&jf).season_rows(10).iter().map(|l| flat(l)).collect();
    assert_eq!(seasons, vec![" │ Season 1  2/2 ✓", "   Season 2  0/1"]);
    assert_eq!(browse(&jf).screen_layout().body, Body::Seasons);

    jf.on_key(key(KeyCode::Down), &config);
    jf.on_key(key(KeyCode::Enter), &config);
    assert_eq!(browse(&jf).place.view, SeriesView::Episodes);
    let rows: Vec<String> = browse(&jf)
        .episode_rows(60, 10)
        .iter()
        .map(|l| flat(l))
        .collect();
    assert_eq!(rows, vec![" │ S02E01  Part 1  42%"]);

    jf.on_key(key(KeyCode::Enter), &config);
    assert!(jf
        .take_requests()
        .iter()
        .any(|r| matches!(r, AppRequest::Play { item, .. } if item.id == "s1-2-1")));
}

#[test]
fn marking_watched_asks_the_server_and_refetches() {
    let mut config = configured();
    let mut jf = browsing(&mut config);
    load(&mut jf, vec![movie("a")], &mut config);
    jf.on_key(key(KeyCode::Char('w')), &config);
    let requests = jf.take_browse_requests();
    assert!(requests
        .iter()
        .any(|r| matches!(r, Request::SetWatched { watched: true, .. })));
}

#[test]
fn libraries_are_paged_and_filtered_by_the_server() {
    let mut config = configured();
    let mut jf = browsing(&mut config);
    while browse(&jf).place.tab != Tab::Libraries {
        jf.on_key(key(KeyCode::Tab), &config);
    }
    let folder = Arc::new(MediaItem {
        id: "lib".into(),
        name: Some("Films".into()),
        kind: ItemKind::CollectionFolder,
        collection_type: Some("movies".into()),
        ..Default::default()
    });
    let fetch_gen = browse(&jf).gens.fetch;
    jf.on_event(
        Msg::LibraryItemsLoaded {
            fetch_gen,
            start_index: 0,
            limit: 100,
            result: Ok(ItemsResponse {
                items: vec![folder],
                total_record_count: 1,
            }),
        },
        &mut config,
    );
    jf.take_browse_requests();
    jf.on_key(key(KeyCode::Enter), &config);
    assert!(matches!(
        browse(&jf).place.level,
        LibraryLevel::Library {
            kind: LibraryKind::Movies,
            ..
        }
    ));
    assert_eq!(browse(&jf).library_breadcrumb().as_deref(), Some("Films"));
    match jf.take_browse_requests().as_slice() {
        [Request::LibraryPage {
            start_index, query, ..
        }] => {
            assert_eq!(*start_index, 0);
            assert_eq!(query.as_ref().unwrap().parent_id, "lib");
        }
        _ => panic!("expected the first page"),
    }
    let fetch_gen = browse(&jf).gens.fetch;
    jf.on_event(
        Msg::LibraryItemsLoaded {
            fetch_gen,
            start_index: 0,
            limit: 100,
            result: Ok(ItemsResponse {
                items: vec![movie("a"), movie("b")],
                total_record_count: 2,
            }),
        },
        &mut config,
    );
    assert_eq!(browse(&jf).lists.items.len(), 2);
    assert!(browse(&jf).uses_server_filter());

    // A stale page changes nothing.
    jf.on_event(
        Msg::LibraryItemsLoaded {
            fetch_gen: fetch_gen + 7,
            start_index: 0,
            limit: 100,
            result: Err(Error::Unauthorized),
        },
        &mut config,
    );
    assert!(matches!(jf.screen, Screen::Browse(_)));

    jf.on_key(key(KeyCode::Esc), &config);
    assert!(matches!(browse(&jf).place.level, LibraryLevel::Root));
}

#[test]
fn tabs_and_hints_are_shown() {
    let mut config = configured();
    let mut jf = browsing(&mut config);
    assert_eq!(browse(&jf).empty_note(), "  Loading...");
    load(&mut jf, Vec::new(), &mut config);
    let b = browse(&jf);
    assert_eq!(b.empty_note(), "  No items.");
    assert_eq!(
        flat(&b.tab_row()),
        "  Resume   Next Up   Recently Added   Libraries   Search  "
    );
    assert_eq!(
        b.help_entries(),
        vec![("/", "filter"), ("?", "help"), ("q", "quit")]
    );
    let sections = b.help_sections();
    assert_eq!(sections[0].title, "Move");
    assert_eq!(sections[0].entries.last(), Some(&("shift+tab", "prev tab")));
    assert_eq!(b.sort_labels().len(), 6);
}

#[test]
fn lists_keep_the_cursor_in_the_middle() {
    let mut config = configured();
    let mut jf = browsing(&mut config);
    let items: Vec<Arc<MediaItem>> = (0..10).map(|i| movie(&format!("m{i}"))).collect();
    load(&mut jf, items, &mut config);
    for _ in 0..5 {
        jf.on_key(key(KeyCode::Down), &config);
    }
    let rows = browse(&jf).item_rows(40, 9);
    let titles: Vec<String> = rows.iter().map(|e| flat(&e.title)).collect();
    assert_eq!(titles, vec!["   M4", " │ M5", "   M6"]);
    assert_eq!(rows[1].title[1].tone, Tone::AccentBold);
}

#[test]
fn info_tells_what_is_known() {
    let item = MediaItem {
        name: Some("Dune".into()),
        kind: ItemKind::Movie,
        genres: vec!["Drama".into(), "Sci-Fi".into()],
        overview: Some("Spice and sand".into()),
        ..Default::default()
    };
    let lines: Vec<String> = item_info_lines(&item, 80).iter().map(|l| flat(l)).collect();
    assert_eq!(
        lines,
        vec!["  Dune", "  ", "  Genres: Drama, Sci-Fi", "", "  Spice and sand"]
    );

    let bare = MediaItem {
        kind: ItemKind::Episode,
        streams: vec![("Video".into(), "1080p".into())],
        ..Default::default()
    };
    let lines: Vec<String> = episode_info_lines(&bare, 80)
        .iter()
        .map(|l| flat(l))
        .collect();
    assert_eq!(
        lines,
        vec!["  S00E00  ", "  Video  1080p", "", "  No overview available."]
    );
}

#[test]
fn the_series_header_leaves_room_for_the_list() {
    let series = MediaItem {
        name: Some("The Expanse".into()),
        production_year: Some(2015),
        rating: Some("8.4".into()),
        overview: Some("word ".repeat(300)),
        ..Default::default()
    };
    let lines = series_header_lines(&series, 30, 10);
    assert_eq!(lines.len(), 6);
    assert_eq!(flat(&lines[0]), "  The Expanse");
    assert_eq!(flat(&lines[1]), "  2015 · 8.4");
    assert_eq!(series_header_lines(&series, 30, 2).len(), 1);
}

#[test]
fn a_browse_screen_quits_on_q() {
    let mut screen = Browse::new(7);
    assert_eq!(screen.gens.fetch, 8);
    assert!(matches!(
        screen.on_key(key(KeyCode::Char('q'))),
        Some(BrowseAction::Quit)
    ));
}

#[test]
fn arrows_and_letters_move_between_and_within_lists() {
    for (next, before) in [
        (KeyCode::Right, KeyCode::Left),
        (KeyCode::Char('l'), KeyCode::Char('h')),
        (KeyCode::Tab, KeyCode::BackTab),
    ] {
        let mut b = Browse::new(0);
        assert!(b.on_key(key(next)).is_none());
        assert_eq!(b.place.tab, Tab::NextUp);
        assert!(b.on_key(key(before)).is_none());
        assert_eq!(b.place.tab, Tab::Resume);
        assert!(b.on_key(key(before)).is_none());
        assert_eq!(b.place.tab, Tab::Search);
    }
    let mut b = Browse::new(0);
    b.before_draw(10);
    let fetch_gen = b.gens.fetch;
    let list = (0..5)
        .map(|i| {
            Arc::new(MediaItem {
                id: format!("m{i}"),
                kind: ItemKind::Movie,
                ..Default::default()
            })
        })
        .collect();
    assert!(!b.on_items_loaded(fetch_gen, Ok(list)));
    let mut at = |c: char| {
        b.on_key(key(KeyCode::Char(c)));
        b.lists.cursor
    };
    assert_eq!(at('j'), 1);
    assert_eq!(at('f'), 3);
    assert_eq!(at('k'), 2);
    assert_eq!(at('u'), 0);
    assert_eq!(at('d'), 2);
    assert_eq!(at('b'), 0);
}
