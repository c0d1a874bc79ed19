use std::sync::Arc;

use isamedia::app::{KeyCode, KeyEvent};
use isamedia::apps::sonarr::browse::{
    add_payload, current_quality_index, current_series_type_index, queue_poll_interval,
    series_label, series_type_choices, Browse, Level, LookupEntry, QUEUE_BACKOFF_MAX_SHIFT,
    QUEUE_POLL_MAX_TICKS, QUEUE_POLL_TICKS, ROOT,
};
use isamedia::apps::sonarr::msg::{Call, CommandKind, Request};
use isamedia::apps::sonarr::setup::{SetupAction, SetupForm};
use isamedia::apps::sonarr::view::{
    episode_file_rows, episode_info_lines, series_header_lines, Body,
};
use isamedia::arr::models::{
    Language, MediaInfo, Quality, QualityProfile, QualityWrapper, QueueEpisode, QueueItem, Release,
    RootFolder,
};
use isamedia::arr::Error;
use isamedia::config::SonarrConfig;
use isamedia::sonarr::{
    episode_code, episode_status, season_downloading, season_label, season_name, EpStatus, Episode,
    EpisodeFile, Season, Series,
};
use isamedia::ui::line::Span;

fn key(code: KeyCode) -> KeyEvent {
    KeyEvent::plain(code)
}

fn flat(line: &[Span]) -> String {
    line.iter().map(|s| s.text.as_str()).collect()
}

fn season(number: i32) -> Season {
    Season {
        season_number: number,
        monitored: true,
        file_count: 1,
        episode_count: 2,
    }
}

fn series(id: i64, title: &str) -> Arc<Series> {
    Arc::new(Series {
        id,
        title: Some(title.into()),
        year: Some(2015),
        monitored: true,
        seasons: vec![season(1), season(2)],
        root_folder_path: Some("/tv".into()),
        quality_profile_id: 4,
        series_type: Some("standard".into()),
        season_folder: true,
        ..Default::default()
    })
}

fn episode(id: i64, number: i32) -> Arc<Episode> {
    Arc::new(Episode {
        id,
        season_number: 1,
        episode_number: number,
        title: Some(format!("Part {number}")),
        monitored: true,
        ..Default::default()
    })
}

/// A browse screen with its series loaded and nothing asked for.
fn loaded(titles: &[&str]) -> Browse {
    let mut b = Browse::new(0, 4);
    let list: Vec<Arc<Series>> = titles
        .iter()
        .enumerate()
        .map(|(i, t)| series(i as i64 + 1, t))
        .collect();
    let fetch = b.gens.fetch;
    assert!(!b.on_series_loaded(fetch, Ok(list)));
    b.take_requests();
    b
}

fn press(b: &mut Browse, codes: &[KeyCode]) {
    for code in codes {
        b.on_key(key(*code));
    }
}

/// A browse screen on the episodes of a season.
fn in_season() -> Browse {
    let mut b = loaded(&["The Expanse"]);
    press(&mut b, &[KeyCode::Enter, KeyCode::Enter]);
    let fetch = b.gens.fetch;
    assert!(!b.on_episodes_loaded(fetch, Ok(vec![episode(12, 2), episode(11, 1)])));
    b.take_requests();
    b
}

#[test]
fn episode_file_rows_include_media_info() {
    let file = EpisodeFile {
        id: 1,
        path: Some("/tv/Show/S01E02.mkv".into()),
        size: 1_500_000_000,
        quality: Some(QualityWrapper {
            quality: Quality {
                name: Some("Bluray-1080p".into()),
            },
        }),
        languages: vec![Language {
            name: Some("Japanese".into()),
        }],
        language: None,
        media_info: Some(MediaInfo {
            video_codec: Some("x264".into()),
            resolution: Some("1920x1080".into()),
            audio_codec: Some("FLAC".into()),
            audio_channels: Some("2".into()),
            audio_languages: Some("jpn".into()),
            subtitles: Some("eng".into()),
            run_time: Some("23:41".into()),
            ..Default::default()
        }),
    };
    let rows = episode_file_rows(&file, 40);
    let labels: Vec<&str> = rows.iter().map(|(label, _)| *label).collect();
    assert_eq!(
        labels,
        [
            "Path",
            "Size",
            "Quality",
            "Language",
            "Video",
            "Audio",
            "Subtitles",
            "Runtime"
        ]
    );
    let value = |label: &str| {
        rows.iter()
            .find(|(l, _)| *l == label)
            .map(|(_, v)| v.as_str())
            .unwrap()
    };
    assert_eq!(value("Quality"), "Bluray-1080p");
    assert_eq!(value("Language"), "Japanese");
    assert_eq!(value("Video"), "x264 • 1920x1080");
    assert_eq!(value("Audio"), "FLAC • 2 ch • jpn");

    // Without media_info only the four base rows appear.
    let mut bare = file;
    bare.media_info = None;
    assert_eq!(episode_file_rows(&bare, 40).len(), 4);
}

#[test]
fn queue_poll_interval_backs_off_and_caps() {
    assert_eq!(queue_poll_interval(0), QUEUE_POLL_TICKS);
    assert_eq!(queue_poll_interval(1), QUEUE_POLL_TICKS * 2);
    assert_eq!(
        queue_poll_interval(QUEUE_BACKOFF_MAX_SHIFT),
        QUEUE_POLL_MAX_TICKS
    );
    // Beyond the cap (and an absurd shift) stays at the max, never overflows.
    assert_eq!(
        queue_poll_interval(QUEUE_BACKOFF_MAX_SHIFT + 4),
        QUEUE_POLL_MAX_TICKS
    );
    assert_eq!(queue_poll_interval(64), QUEUE_POLL_MAX_TICKS);
}

#[test]
fn indices_into_the_form_tables() {
    assert_eq!(series_type_choices(), vec!["Standard", "Daily", "Anime"]);
    assert_eq!(current_series_type_index(Some("anime")), 2);
    assert_eq!(current_series_type_index(Some("other")), 0);
    assert_eq!(current_series_type_index(None), 0);
    let profiles = [
        QualityProfile {
            id: 1,
            name: "Any".into(),
        },
        QualityProfile {
            id: 4,
            name: "HD-1080p".into(),
        },
    ];
    assert_eq!(current_quality_index(&profiles, 4), Some(1));
    assert_eq!(current_quality_index(&profiles, 9), None);
}

#[test]
fn series_and_seasons_are_labelled() {
    assert_eq!(series_label(&series(1, "The Expanse")), "The Expanse (2015)");
    assert_eq!(season_name(0), "Specials");
    assert_eq!(season_name(3), "Season 3");
    assert!(season_label(&season(1)).contains("1/2"));
    assert_eq!(episode_code(1, 2), "S01E02");
    assert_eq!(episode_code(12, 345), "S12E345");
}

#[test]
fn drilling_in_and_out_is_deterministic() {
    let mut b = loaded(&["The Expanse"]);
    assert_eq!(b.breadcrumb(), "Series");
    press(&mut b, &[KeyCode::Enter]);
    assert!(matches!(b.level, Level::Show { .. }));
    let seasons: Vec<String> = b.season_rows(10).iter().map(|l| flat(l)).collect();
    assert_eq!(seasons.len(), 2);
    press(&mut b, &[KeyCode::Enter]);
    assert!(b.take_requests().iter().any(|r| matches!(
        r,
        Request::Episodes {
            series_id: 1,
            season_number: 1,
            ..
        }
    )));
    let fetch = b.gens.fetch;
    assert!(!b.on_episodes_loaded(fetch, Ok(vec![episode(12, 2), episode(11, 1)])));
    // Shown by number.
    assert_eq!(b.lists.episodes[0].id, 11);
    assert_eq!(b.breadcrumb(), "The Expanse / Season 1");
    press(&mut b, &[KeyCode::Char('i')]);
    assert!(matches!(b.level, Level::EpisodeDetail { .. }));
    assert_eq!(b.screen_layout().body, Body::EpisodeInfo);
    press(&mut b, &[KeyCode::Esc, KeyCode::Esc, KeyCode::Esc]);
    assert!(matches!(b.level, Level::SeriesList));
}

#[test]
fn stale_episodes_are_dropped() {
    let mut b = in_season();
    let stale = b.gens.fetch + 3;
    assert!(!b.on_episodes_loaded(stale, Ok(Vec::new())));
    assert_eq!(b.lists.episodes.len(), 2);
    let fetch = b.gens.fetch;
    assert!(b.on_episodes_loaded(fetch, Err(Error::Unauthorized)));
}

#[test]
fn the_filter_keeps_the_order() {
    let mut b = loaded(&["Dark", "The Expanse", "Darkwing"]);
    press(&mut b, &[KeyCode::Char('/'), KeyCode::Char('D'), KeyCode::Char('a')]);
    assert_eq!(b.lists.filtered, vec![0, 2]);
    let rows = b.series_rows(60, 9);
    assert_eq!(flat(&rows[1].title), "   Darkwing");
    press(&mut b, &[KeyCode::Esc]);
    assert_eq!(b.lists.filtered, vec![0, 1, 2]);
}

#[test]
fn the_search_menu_keeps_its_episode() {
    let mut b = in_season();
    press(&mut b, &[KeyCode::Enter]);
    assert_eq!(b.popups.search_menu.as_ref().unwrap().episode.id, 11);
    press(&mut b, &[KeyCode::Enter]);
    assert!(matches!(
        b.take_requests().as_slice(),
        [Request::Command {
            kind: CommandKind::AutoSearch,
            call: Call::EpisodeSearch { episode_id: 11 },
            ..
        }]
    ));
}

#[test]
fn an_interactive_search_grabs_after_asking() {
    let mut b = in_season();
    press(&mut b, &[KeyCode::Enter, KeyCode::Down, KeyCode::Enter]);
    assert!(matches!(b.level, Level::Search { .. }));
    b.take_requests();
    let fetch = b.gens.fetch;
    assert!(!b.on_releases_loaded(
        fetch,
        Ok(vec![Release {
            guid: "g".into(),
            indexer_id: 7,
            ..Default::default()
        }])
    ));
    assert!(!b.on_history_loaded(fetch, Ok(Vec::new())));
    b.take_requests();
    press(&mut b, &[KeyCode::Enter]);
    assert_eq!(b.question(), Some("Download this release?"));
    press(&mut b, &[KeyCode::Enter]);
    assert!(matches!(
        b.take_requests().as_slice(),
        [Request::Command {
            kind: CommandKind::Grab,
            ..
        }]
    ));
}

#[test]
fn monitoring_is_toggled_where_the_user_is() {
    let mut b = loaded(&["The Expanse"]);
    press(&mut b, &[KeyCode::Char('m')]);
    assert!(matches!(
        b.take_requests().as_slice(),
        [Request::Command {
            kind: CommandKind::SetMonitored,
            call: Call::SetSeriesMonitored {
                id: 1,
                monitored: false
            },
            ..
        }]
    ));
    let mut b = in_season();
    press(&mut b, &[KeyCode::Char('m')]);
    assert!(matches!(
        b.take_requests().as_slice(),
        [Request::Command {
            call: Call::SetEpisodeMonitored {
                id: 11,
                monitored: false
            },
            ..
        }]
    ));
}

fn options() -> (Vec<RootFolder>, Vec<QualityProfile>) {
    (
        vec![
            RootFolder {
                path: "/tv".into(),
                accessible: true,
            },
            RootFolder {
                path: "/anime".into(),
                accessible: true,
            },
        ],
        vec![
            QualityProfile {
                id: 1,
                name: "Any".into(),
            },
            QualityProfile {
                id: 4,
                name: "HD-1080p".into(),
            },
        ],
    )
}

#[test]
fn an_untouched_edit_sends_nothing() {
    let mut b = loaded(&["The Expanse"]);
    press(&mut b, &[KeyCode::Char('o')]);
    // The options come first, then the form opens by itself.
    assert!(b.add.form.is_none());
    let prereq = b.gens.add_prereq;
    assert!(!b.on_add_options_loaded(prereq, Ok(options())));
    let form = b.add.form.as_ref().unwrap();
    assert_eq!(form.form.text(ROOT), "/tv");
    b.take_requests();
    while !b.add.form.as_ref().unwrap().form.action_row_focused() {
        press(&mut b, &[KeyCode::Down]);
    }
    press(&mut b, &[KeyCode::Enter]);
    assert!(b.add.form.is_none());
    assert!(b.take_requests().is_empty());
}

#[test]
fn an_edit_sends_what_changed() {
    let mut b = loaded(&["The Expanse"]);
    press(&mut b, &[KeyCode::Char('o')]);
    let prereq = b.gens.add_prereq;
    assert!(!b.on_add_options_loaded(prereq, Ok(options())));
    b.take_requests();
    press(&mut b, &[KeyCode::Char('2')]); // another root folder
    while !b.add.form.as_ref().unwrap().form.action_row_focused() {
        press(&mut b, &[KeyCode::Down]);
    }
    press(&mut b, &[KeyCode::Enter]);
    match b.take_requests().as_slice() {
        [Request::Command {
            kind: CommandKind::SetOptions,
            call:
                Call::EditOptions {
                    id: 1,
                    root_folder: Some(root),
                    move_files: false,
                    quality_profile_id: None,
                    series_type: None,
                    season_folder: None,
                },
            ..
        }] => assert_eq!(root, "/tv2"),
        _ => panic!("expected one edit"),
    }
}

#[test]
fn a_series_is_added_with_its_lookup_object() {
    let mut b = loaded(&[]);
    press(&mut b, &[KeyCode::Char('a')]);
    let prereq = b.gens.add_prereq;
    assert!(!b.on_add_options_loaded(prereq, Ok(options())));
    press(&mut b, &[KeyCode::Char('d'), KeyCode::Enter]);
    let add_lookup = b.gens.add_lookup;
    assert!(!b.on_lookup_loaded(
        add_lookup,
        Ok(vec![LookupEntry {
            series: Some(series(0, "Dark")),
            raw: serde_json::Value::from_iter([("tvdbId", 5)]),
        }])
    ));
    b.take_requests();
    press(&mut b, &[KeyCode::Enter]);
    assert_eq!(b.screen_layout().body, Body::Form);
    while !b.add.form.as_ref().unwrap().form.action_row_focused() {
        press(&mut b, &[KeyCode::Down]);
    }
    press(&mut b, &[KeyCode::Enter]);
    match b.take_requests().as_slice() {
        [Request::AddSeries { body, .. }] => {
            assert_eq!(body["tvdbId"], 5);
            assert_eq!(body["rootFolderPath"], "/tv");
            assert_eq!(body["qualityProfileId"], 1);
            assert_eq!(body["addOptions"]["searchForMissingEpisodes"], false);
        }
        _ => panic!("expected one add"),
    }
    // The lookup is superseded once the user has left.
    press(&mut b, &[KeyCode::Esc]);
    assert!(!b.on_lookup_loaded(add_lookup, Err(Error::Http("gone".into()))));
    assert!(b.status.error.is_none());
}

#[test]
fn an_unmonitored_add_monitors_nothing() {
    let raw = serde_json::Value::from_iter([("tvdbId", 5)]);
    let body = add_payload(&raw, 4, "/tv", false, true, "anime");
    assert_eq!(body["addOptions"]["monitor"], "none");
    assert_eq!(body["seriesType"], "anime");
    assert_eq!(body["seasonFolder"], true);
    let body = add_payload(&raw, 4, "/tv", true, true, "anime");
    assert_eq!(body["addOptions"]["monitor"], "all");
}

#[test]
fn failed_polls_back_off_silently() {
    let mut b = in_season();
    b.set_active(true);
    b.take_requests();
    let queue = b.gens.queue;
    let _ = b.on_queue_loaded(queue, Err(Error::Http("gone".into())));
    assert!(b.status.error.is_none());
    assert!(b.status.queue_backoff <= QUEUE_BACKOFF_MAX_SHIFT);
    b.set_active(false);
    b.take_requests();
    for _ in 0..QUEUE_POLL_MAX_TICKS * 2 {
        b.on_tick();
    }
    assert!(!b
        .take_requests()
        .iter()
        .any(|r| matches!(r, Request::Queue { .. })));
}

#[test]
fn statuses_by_file_queue_and_air_date() {
    let mut e = Episode {
        id: 11,
        air_date_utc: Some("2024-01-02T03:00:00Z".into()),
        ..Default::default()
    };
    assert!(matches!(
        episode_status(&e, None, "2024-01-02T02:59:59Z"),
        EpStatus::Unaired
    ));
    assert!(matches!(
        episode_status(&e, None, "2024-01-02T03:00:00Z"),
        EpStatus::Missing
    ));
    let item = QueueItem {
        progress: 63,
        ..Default::default()
    };
    assert!(matches!(
        episode_status(&e, Some(&item), "2024-01-02T03:00:00Z"),
        EpStatus::Downloading(63)
    ));
    e.episode_file = Some(EpisodeFile::default());
    assert!(matches!(
        episode_status(&e, None, "2024-01-02T03:00:00Z"),
        EpStatus::Downloaded(_)
    ));
}

#[test]
fn seasons_show_what_is_downloading() {
    let queue = vec![QueueItem {
        series_id: Some(1),
        episode: Some(QueueEpisode {
            season_number: 2,
            ..Default::default()
        }),
        ..Default::default()
    }];
    assert!(season_downloading(&queue, 1, 2));
    assert!(!season_downloading(&queue, 1, 1));
    assert!(!season_downloading(&queue, 2, 2));
}

#[test]
fn headers_and_info_are_set() {
    let lines = series_header_lines(&series(1, "The Expanse"), 60, 20);
    assert_eq!(flat(&lines[0]), "  The Expanse");
    assert!(flat(&lines[1]).contains("2015"));
    let lines: Vec<String> = episode_info_lines(&episode(11, 1), 60)
        .iter()
        .map(|l| flat(l))
        .collect();
    assert_eq!(lines[0], "  S01E01  Part 1");
    assert!(lines.contains(&"  Not downloaded.".to_string()));
    assert_eq!(lines.last().unwrap(), "  No overview available.");
}

#[test]
fn deletes_leave_only_their_own_page() {
    let mut b = loaded(&["The Expanse", "Dark"]);
    press(&mut b, &[KeyCode::Enter]);
    // A delete of another series leaves this page alone.
    let fetch = b.gens.fetch;
    let _ = b.on_command_done(fetch, CommandKind::DeleteSeries(2), Ok(()));
    assert!(matches!(b.level, Level::Show { .. }));
    let fetch = b.gens.fetch;
    let _ = b.on_command_done(fetch, CommandKind::DeleteSeries(1), Ok(()));
    assert!(matches!(b.level, Level::SeriesList));
}

#[test]
fn the_setup_form_checks_host_and_key() {
    let mut form = SetupForm::from_config(&SonarrConfig::default());
    assert!(!form.valid());
    for c in "https://s".chars() {
        form.on_key(key(KeyCode::Char(c)));
    }
    form.on_key(key(KeyCode::Tab));
    form.on_key(key(KeyCode::Char('k')));
    assert!(form.valid());
    assert!(!form.plain_http());
    assert!(matches!(
        form.on_key(key(KeyCode::Enter)),
        Some(SetupAction::Submit)
    ));
}
