use std::sync::Arc;

use isamedia::app::{KeyCode, KeyEvent, KeyModifiers, ShellRequest};
use isamedia::apps::radarr::browse::{
    add_payload, movie_label, preferred_quality_index, released_availability_index, AddStep,
    Browse, Level, LookupEntry, MIN_AVAILABILITY, QUEUE_POLL_TICKS,
};
use isamedia::apps::radarr::msg::{Call, CommandKind, Request};
use isamedia::apps::radarr::setup::{SetupAction, SetupForm};
use isamedia::apps::radarr::view::{movie_file_rows, status_span, Body, InputRow};
use isamedia::apps::radarr::{AppRequest, Msg, RadarrApp, Screen};
use isamedia::arr::models::{
    Command, HistoryRecord, QualityProfile, QueueItem, Release, RootFolder,
};
use isamedia::arr::{usable_key, Error};
use isamedia::config::{Config, RadarrConfig};
use isamedia::radarr::{
    movie_meta, movie_queue_entry, movie_status, Movie, MovieFile, MovieStatus,
};
use isamedia::ui::line::{Span, Tone};

fn profile(id: i64, name: &str) -> QualityProfile {
    QualityProfile {
        id,
        name: name.to_string(),
    }
}

fn key(code: KeyCode) -> KeyEvent {
    KeyEvent::plain(code)
}

fn flat(line: &[Span]) -> String {
    line.iter().map(|s| s.text.as_str()).collect()
}

fn movie(id: i64, title: &str) -> Arc<Movie> {
    Arc::new(Movie {
        id,
        title: Some(title.into()),
        year: Some(2021),
        ..Default::default()
    })
}

/// A browse screen with its movies loaded and nothing asked for.
fn loaded(titles: &[&str]) -> Browse {
    let mut b = Browse::new(0, 4);
    let list: Vec<Arc<Movie>> = titles
        .iter()
        .enumerate()
        .map(|(i, t)| movie(i as i64 + 1, t))
        .collect();
    let fetch = b.gens.fetch;
    assert!(!b.on_movies_loaded(fetch, Ok(list)));
    let queue = b.gens.queue;
    assert!(!b.on_queue_loaded(queue, Ok(Vec::new())));
    b.take_requests();
    b
}

fn press(b: &mut Browse, codes: &[KeyCode]) {
    for code in codes {
        b.on_key(key(*code));
    }
}

#[test]
fn preferred_quality_index_picks_first_1080() {
    let profiles = [
        profile(1, "Any"),
        profile(2, "SD"),
        profile(3, "HD-1080p"),
        profile(4, "Ultra-HD"),
    ];
    assert_eq!(preferred_quality_index(&profiles), 2);
}

#[test]
fn preferred_quality_index_is_case_insensitive() {
    let profiles = [profile(1, "Any"), profile(2, "HD - 1080P")];
    assert_eq!(preferred_quality_index(&profiles), 1);
}

#[test]
fn preferred_quality_index_falls_back_to_first() {
    let profiles = [profile(1, "Any"), profile(2, "SD"), profile(3, "HD-720p")];
    assert_eq!(preferred_quality_index(&profiles), 0);
}

#[test]
fn preferred_quality_index_empty_is_zero() {
    assert_eq!(preferred_quality_index(&[]), 0);
}

#[test]
fn released_availability_index_matches_table() {
    assert_eq!(
        MIN_AVAILABILITY[released_availability_index()].1,
        "released"
    );
}

#[test]
fn the_screen_opens_with_list_and_queue() {
    let mut b = Browse::new(5, 4);
    match b.take_requests().as_slice() {
        [Request::Movies { fetch_gen }, Request::Queue { queue_gen }] => {
            assert_eq!(*fetch_gen, b.gens.fetch);
            assert_eq!(*queue_gen, b.gens.queue);
            assert!(*fetch_gen > 5);
        }
        _ => panic!("expected the list and the queue"),
    }
    assert_eq!(b.empty_note(), "  Loading...");
}

#[test]
fn stale_lists_are_dropped() {
    let mut b = loaded(&["Dune"]);
    let stale = b.gens.fetch + 9;
    assert!(!b.on_movies_loaded(stale, Err(Error::Unauthorized)));
    assert_eq!(b.lists.movies.len(), 1);
    let fetch = b.gens.fetch;
    assert!(b.on_movies_loaded(fetch, Err(Error::Unauthorized)));
}

#[test]
fn the_filter_narrows_by_title_and_esc_restores() {
    let mut b = loaded(&["Dune", "Tenet", "June"]);
    press(
        &mut b,
        &[KeyCode::Char('/'), KeyCode::Char('U'), KeyCode::Char('n')],
    );
    let titles: Vec<&str> = b
        .lists
        .movies
        .iter()
        .map(|m| m.title.as_deref().unwrap())
        .collect();
    assert_eq!(titles, vec!["Dune", "June"]);
    assert_eq!(b.screen_layout().input, InputRow::Filter);
    press(&mut b, &[KeyCode::Esc]);
    assert_eq!(b.lists.movies.len(), 3);
    assert!(!b.filter.active);
}

#[test]
fn a_movie_opens_searches_and_goes_back() {
    let mut b = loaded(&["Dune"]);
    press(&mut b, &[KeyCode::Enter]);
    assert!(matches!(b.level, Level::MovieDetail { .. }));
    assert_eq!(b.breadcrumb(), "Dune");
    press(&mut b, &[KeyCode::Enter]);
    assert_eq!(b.popups.search_menu, Some(0));
    press(&mut b, &[KeyCode::Down, KeyCode::Enter]);
    assert!(matches!(b.level, Level::Search { .. }));
    assert_eq!(b.breadcrumb(), "Dune / search");
    let requests = b.take_requests();
    assert!(requests
        .iter()
        .any(|r| matches!(r, Request::Releases { movie_id: 1, .. })));
    assert!(requests
        .iter()
        .any(|r| matches!(r, Request::History { movie_id: 1, .. })));
    press(&mut b, &[KeyCode::Esc, KeyCode::Esc]);
    assert!(matches!(b.level, Level::MovieList));
}

#[test]
fn rejected_releases_are_asked_about() {
    let mut b = loaded(&["Dune"]);
    press(
        &mut b,
        &[KeyCode::Enter, KeyCode::Enter, KeyCode::Down, KeyCode::Enter],
    );
    let fetch = b.gens.fetch;
    assert!(!b.on_releases_loaded(
        fetch,
        Ok(vec![Release {
            guid: "g".into(),
            indexer_id: 7,
            title: Some("Dune.2021.1080p".into()),
            rejected: true,
            rejections: vec!["too big".into()],
            ..Default::default()
        }])
    ));
    assert!(!b.on_history_loaded(
        fetch,
        Ok(vec![HistoryRecord {
            guid: Some("g".into()),
            ..Default::default()
        }])
    ));
    b.take_requests();
    let rows = b.release_rows(80, 9);
    assert_eq!(rows.len(), 1);
    assert!(flat(&rows[0].title).contains("Dune.2021.1080p"));

    press(&mut b, &[KeyCode::Char('x')]);
    assert_eq!(b.popups.rejections, Some(0));
    press(&mut b, &[KeyCode::Esc, KeyCode::Enter]);
    assert_eq!(b.question(), Some("Release has rejections. Download anyway?"));
    press(&mut b, &[KeyCode::Char('y')]);
    match b.take_requests().as_slice() {
        [Request::Command {
            kind: CommandKind::Grab,
            call: Call::GrabRelease { guid, indexer_id },
            ..
        }] => {
            assert_eq!(guid, "g");
            assert_eq!(*indexer_id, 7);
        }
        _ => panic!("expected one grab"),
    }
}

fn lookup(title: &str) -> LookupEntry {
    LookupEntry {
        movie: Some(movie(0, title)),
        raw: serde_json::Value::from_iter([("title", title)]),
    }
}

/// A browse screen on its add screen, with a result and the options loaded.
fn adding() -> Browse {
    let mut b = loaded(&[]);
    press(&mut b, &[KeyCode::Char('a')]);
    let prereq = b.gens.add_prereq;
    assert!(!b.on_add_options_loaded(
        prereq,
        Ok((
            vec![RootFolder {
                path: "/movies".into(),
                accessible: true,
            }],
            vec![profile(1, "Any"), profile(4, "HD-1080p")],
        ))
    ));
    press(
        &mut b,
        &[KeyCode::Char('d'), KeyCode::Char('u'), KeyCode::Enter],
    );
    let add_lookup = b.gens.add_lookup;
    assert!(!b.on_lookup_loaded(
        add_lookup,
        Ok(vec![
            LookupEntry {
                movie: None,
                raw: serde_json::Value::Null,
            },
            lookup("Dune"),
        ])
    ));
    b.take_requests();
    b
}

#[test]
fn the_wizard_walks_its_steps_on_their_defaults() {
    let mut b = adding();
    assert_eq!(b.add.results.len(), 1);
    assert_eq!(b.add.raw.len(), 1);
    press(&mut b, &[KeyCode::Enter]);
    assert_eq!(b.add_step_menu().0, "Root folder");
    press(&mut b, &[KeyCode::Enter]);
    let flow = b.add.flow.as_ref().unwrap();
    assert_eq!(flow.step, AddStep::QualityProfile);
    assert_eq!(flow.cursor, 1);
    press(&mut b, &[KeyCode::Enter]);
    assert_eq!(b.add.flow.as_ref().unwrap().cursor, 2);
    press(&mut b, &[KeyCode::Enter, KeyCode::Enter, KeyCode::Enter]);
    assert!(b.add.flow.is_none());
    assert!(b.add.submitting);
    match b.take_requests().as_slice() {
        [Request::AddMovie { add_gen, body }] => {
            assert_eq!(*add_gen, b.gens.add);
            assert_eq!(
                body.to_string(),
                concat_text(&[
                    r#"{"addOptions":{"searchForMovie":false},"minimumAvailability":"released","#,
                    r#""monitored":true,"qualityProfileId":4,"rootFolderPath":"/movies","#,
                    r#""title":"Dune"}"#,
                ])
            );
        }
        _ => panic!("expected one add"),
    }
}

fn concat_text(parts: &[&str]) -> String {
    parts.concat()
}

#[test]
fn a_payload_keeps_what_the_lookup_held() {
    let raw = serde_json::Value::from_iter([("tmdbId", 438631)]);
    let body = add_payload(&raw, 4, "/movies", false, "inCinemas");
    let members = body.as_object().unwrap();
    assert_eq!(members["tmdbId"], 438631);
    assert_eq!(members["monitored"], false);
    assert_eq!(members["minimumAvailability"], "inCinemas");
    assert_eq!(members.len(), 6);
    // What is no object stays as it is.
    assert_eq!(
        add_payload(&serde_json::Value::Null, 4, "/movies", true, "released"),
        serde_json::Value::Null
    );
}

#[test]
fn an_added_movie_is_opened_and_searched_for() {
    let mut b = adding();
    press(&mut b, &[KeyCode::Enter; 6]);
    b.take_requests();
    let add = b.gens.add;
    assert!(!b.on_movie_added(add, Ok(movie(9, "Dune"))));
    assert_eq!(b.monitors.len(), 1);
    let generation = b.monitors[0].generation;
    assert!(b
        .take_requests()
        .iter()
        .any(|r| matches!(r, Request::AutoSearch { movie_id: 9, .. })));
    assert!(!b.on_auto_search_started(
        generation,
        Ok(Command {
            id: 3,
            status: Some("queued".into()),
        })
    ));
    assert_eq!(
        flat(&b.status_line().unwrap()),
        " Radarr: searching for Dune (2021)..."
    );
}

#[test]
fn leaving_the_add_screen_drops_its_answers() {
    let mut b = adding();
    let stale = b.gens.add_lookup;
    press(&mut b, &[KeyCode::Esc]);
    assert!(matches!(b.level, Level::MovieList));
    assert!(!b.on_lookup_loaded(stale, Err(Error::Http("gone".into()))));
    assert!(b.status.error.is_none());
}

#[test]
fn deleting_a_movie_leaves_its_page() {
    let mut b = loaded(&["Dune", "Tenet"]);
    press(&mut b, &[KeyCode::Enter, KeyCode::Char('z'), KeyCode::Enter]);
    let (fetch_gen, kind) = match b.take_requests().as_slice() {
        [Request::Command {
            fetch_gen,
            kind,
            call:
                Call::DeleteMovie {
                    id: 1,
                    delete_files: true,
                    add_exclusion: false,
                },
        }] => (*fetch_gen, *kind),
        _ => panic!("expected one delete"),
    };
    assert!(!b.on_command_done(fetch_gen, kind, Ok(())));
    assert!(matches!(b.level, Level::MovieList));
}

#[test]
fn failed_commands_are_shown_unless_stale() {
    let mut b = loaded(&["Dune"]);
    let fetch = b.gens.fetch;
    let failure = || Err(Error::Status("500 Internal Server Error".into()));
    assert!(!b.on_command_done(fetch + 1, CommandKind::Grab, failure()));
    assert!(b.message_row().is_none());
    assert!(!b.on_command_done(fetch, CommandKind::Grab, failure()));
    assert_eq!(
        b.message_row().unwrap().text,
        "Error: server returned 500 Internal Server Error"
    );
}

#[test]
fn the_queue_is_polled_and_never_twice_at_once() {
    let mut b = loaded(&["Dune"]);
    let mut polls = 0;
    for _ in 0..QUEUE_POLL_TICKS * 3 {
        b.on_tick();
        polls += b
            .take_requests()
            .iter()
            .filter(|r| matches!(r, Request::Queue { .. }))
            .count();
    }
    assert_eq!(polls, 1);
    let queue = b.gens.queue;
    assert!(!b.on_queue_loaded(queue, Err(Error::Http("gone".into()))));
    assert!(b.status.error.is_none());
}

#[test]
fn downloads_are_marked_and_removed() {
    let mut b = loaded(&["Dune"]);
    press(&mut b, &[KeyCode::Char('d')]);
    let queue = b.gens.queue;
    assert!(!b.on_queue_loaded(
        queue,
        Ok(vec![
            QueueItem {
                id: 10,
                movie_id: Some(1),
                ..Default::default()
            },
            QueueItem {
                id: 20,
                title: Some("Other.Release".into()),
                ..Default::default()
            },
        ])
    ));
    b.take_requests();
    assert_eq!(b.breadcrumb(), "Downloads (2)");
    assert_eq!(b.download_row(&b.lists.queue[0]).name, "Dune");
    assert_eq!(b.download_row(&b.lists.queue[1]).name, "Other.Release");
    press(&mut b, &[KeyCode::Down, KeyCode::Char(' ')]);
    assert_eq!(b.breadcrumb(), "Downloads (1 marked)");
    press(&mut b, &[KeyCode::Char('x'), KeyCode::Enter]);
    match b.take_requests().as_slice() {
        [Request::Command {
            kind: CommandKind::DeleteQueue,
            call: Call::DeleteQueueItems { ids, .. },
            ..
        }] => assert_eq!(ids, &vec![20]),
        _ => panic!("expected one removal"),
    }
}

#[test]
fn a_chosen_sort_is_asked_for() {
    let mut b = loaded(&["Dune", "Tenet"]);
    press(&mut b, &[KeyCode::Char('s'), KeyCode::Down, KeyCode::Enter]);
    assert!(matches!(
        b.take_requests().as_slice(),
        [Request::Sort { sort: 1 }]
    ));
    b.on_sorted(vec![1, 0]);
    assert_eq!(b.lists.movies[0].id, 2);
    // Whatever does not name each movie once is refused.
    for refused in [vec![0, 0], vec![0], vec![0, 2], vec![0, 1, 1]] {
        b.on_sorted(refused);
        assert_eq!(b.lists.all_movies.len(), 2);
        assert_eq!(b.lists.movies[0].id, 2);
    }
    // A list that was fetched is brought into order too.
    b.fetch_movies();
    let fetch = b.gens.fetch;
    b.take_requests();
    assert!(!b.on_movies_loaded(fetch, Ok(vec![movie(1, "Dune")])));
    assert!(matches!(
        b.take_requests().as_slice(),
        [Request::Sort { sort: 1 }]
    ));
}

#[test]
fn held_modifiers_are_no_shortcuts() {
    let mut b = loaded(&["Dune"]);
    let held = KeyModifiers {
        control: true,
        ..KeyModifiers::none()
    };
    assert!(b
        .on_key(KeyEvent::new(KeyCode::Char('q'), held))
        .is_none());
    assert!(b.on_key(key(KeyCode::Char('q'))).is_some());
}

#[test]
fn statuses_by_file_queue_and_date() {
    let mut m = Movie {
        id: 1,
        release_date: Some("2024-01-02".into()),
        ..Default::default()
    };
    assert!(matches!(
        movie_status(&m, None, "2024-01-01T00:00:00Z"),
        MovieStatus::Unreleased(Some(_))
    ));
    assert!(matches!(
        movie_status(&m, None, "2024-01-03T00:00:00Z"),
        MovieStatus::Missing
    ));
    let item = QueueItem {
        movie_id: Some(1),
        progress: 63,
        ..Default::default()
    };
    let queue = vec![item];
    let status = movie_status(&m, movie_queue_entry(&queue, 1), "2024-01-03T00:00:00Z");
    assert_eq!(status_span(&status).text, "↓ 63%");
    m.movie_file = Some(MovieFile::default());
    let status = movie_status(&m, None, "2024-01-03T00:00:00Z");
    assert!(matches!(status, MovieStatus::Downloaded(_)));
    assert_eq!(status_span(&MovieStatus::Missing).tone, Tone::Error);
}

#[test]
fn movies_are_labelled_and_described() {
    let m = Movie {
        title: Some("Dune".into()),
        year: Some(2021),
        rating: Some("8.0".into()),
        runtime: Some("2h 35m".into()),
        ..Default::default()
    };
    assert_eq!(movie_label(&m), "Dune (2021)");
    assert_eq!(movie_meta(&m), "2021 • 8.0 • 2h 35m");
    assert_eq!(movie_label(&Movie::default()), "movie");
    let rows = movie_file_rows(
        &MovieFile {
            edition: Some("Extended".into()),
            ..Default::default()
        },
        &None,
        40,
    );
    let labels: Vec<&str> = rows.iter().map(|(label, _)| *label).collect();
    assert_eq!(labels, ["Path", "Size", "Quality", "Language", "Edition"]);
}

#[test]
fn lists_and_pages_are_shown() {
    let mut b = loaded(&["Dune", "Tenet"]);
    let rows = b.movie_rows("2024-01-01T00:00:00Z", 60, 9);
    assert_eq!(flat(&rows[0].title), " │ Dune");
    assert_eq!(flat(&rows[1].title), "   Tenet");
    press(&mut b, &[KeyCode::Enter]);
    assert_eq!(b.screen_layout().body, Body::MovieDetail);
    let lines = b.detail_lines("2024-01-01T00:00:00Z", 60, 20);
    assert_eq!(flat(&lines[0]), "  Dune");
    press(&mut b, &[KeyCode::Char('v')]);
    assert_eq!(b.screen_layout().body, Body::Overview);
}

#[test]
fn the_setup_form_needs_host_and_key() {
    let mut form = SetupForm::from_config(&RadarrConfig::default());
    assert_eq!(form.invalid_reason().as_deref(), Some("enter the host"));
    for c in "http://r".chars() {
        form.on_key(key(KeyCode::Char(c)));
    }
    assert!(form.plain_http());
    form.on_key(key(KeyCode::Down));
    form.on_key(key(KeyCode::Char('k')));
    form.on_key(key(KeyCode::Down));
    assert!(matches!(
        form.on_key(key(KeyCode::Enter)),
        Some(SetupAction::Submit)
    ));
    assert_eq!(form.host(), "http://r");
    assert_eq!(form.api_key(), "k");
}

#[test]
fn a_connect_opens_the_browse_screen() {
    let mut config = Config::default();
    config.radarr.host = "http://radarr.example".into();
    let mut app = RadarrApp::new(4);
    app.activate(&config);
    let auth_gen = match app.take_requests().as_slice() {
        [AppRequest::Connect {
            auth_gen,
            host,
            api_key: None,
        }] => {
            assert_eq!(host, "http://radarr.example");
            *auth_gen
        }
        _ => panic!("expected one connect"),
    };
    app.on_event(
        Msg::ConnectDone {
            auth_gen,
            result: Ok("http://radarr.example".into()),
        },
        &mut config,
    );
    match &app.screen {
        Screen::Browse(b) => assert_eq!(
            b.status.notice,
            Some("connected over plain http://; traffic is unencrypted")
        ),
        _ => panic!("expected the browse screen"),
    }
    assert_eq!(app.take_browse_requests().len(), 2);
    assert_eq!(
        app.on_key(key(KeyCode::Char('q')), &config),
        Some(ShellRequest::Quit)
    );
}

#[test]
fn a_rejected_key_goes_back_to_the_form() {
    let mut config = Config::default();
    config.radarr.host = "https://radarr.example".into();
    let mut app = RadarrApp::new(4);
    app.activate(&config);
    let auth_gen = app.auth_gen;
    app.on_event(
        Msg::ConnectDone {
            auth_gen,
            result: Ok("https://radarr.example".into()),
        },
        &mut config,
    );
    app.take_requests();
    let fetch_gen = match &app.screen {
        Screen::Browse(b) => b.gens.fetch,
        _ => panic!("expected the browse screen"),
    };
    app.on_event(
        Msg::MoviesLoaded {
            fetch_gen,
            result: Err(Error::Unauthorized),
        },
        &mut config,
    );
    assert!(matches!(
        app.take_requests().as_slice(),
        [AppRequest::DeleteKey]
    ));
    match &app.screen {
        Screen::Setup(form) => assert_eq!(
            form.error.as_deref(),
            Some("API key rejected, please enter it again")
        ),
        _ => panic!("expected the form"),
    }
}

#[test]
fn a_missing_key_shows_a_clean_form() {
    let mut config = Config::default();
    config.radarr.host = "https://radarr.example".into();
    let mut app = RadarrApp::new(4);
    app.activate(&config);
    let auth_gen = app.auth_gen;
    app.on_event(
        Msg::ConnectDone {
            auth_gen,
            result: Err(Error::MissingApiKey),
        },
        &mut config,
    );
    match &app.screen {
        Screen::Setup(form) => assert!(form.error.is_none()),
        _ => panic!("expected the form"),
    }
    assert_eq!(usable_key(None, Some("k".into())).as_deref(), Some("k"));
    assert_eq!(usable_key(Some(String::new()), Some("k".into())), None);
}

#[test]
fn an_empty_download_list_says_so() {
    let mut b = loaded(&[]);
    assert_eq!(b.empty_note(), "  No movies.");
    b.on_key(key(KeyCode::Char('d')));
    assert_eq!(b.empty_note(), "  No active downloads.");
}
