use isamedia::arr::calendar::{civil_from_days, epoch_to_iso, has_come, now_utc_iso, reading_to_iso};
use isamedia::arr::display::{
    format_age_days, format_size, previously_grabbed, queue_language, queue_quality,
    queue_state_label, queue_timeleft, release_line2, year_label,
};
use isamedia::arr::models::{
    HistoryRecord, Language, Page, Quality, QualityWrapper, QueueItem, Release,
};
use isamedia::arr::{
    address, check_status, delete_queue_items, get_command, get_quality_profiles, get_queue,
    get_root_folders, grab_release, page_request, status_request, Error, Method, Pages, Paging,
};

fn quality(name: &str) -> Option<QualityWrapper> {
    Some(QualityWrapper {
        quality: Quality {
            name: Some(name.into()),
        },
    })
}

#[test]
fn size_formatting() {
    assert_eq!(format_size(1_503_238_553), "1.4 GiB");
    assert_eq!(format_size(786_432_000), "750.0 MiB");
    assert_eq!(format_size(4_096), "4.0 KiB");
    assert_eq!(format_size(512), "512 B");
    assert_eq!(format_size(-1), "0 B");
}

#[test]
fn epoch_conversion_matches_known_dates() {
    assert_eq!(epoch_to_iso(0), "1970-01-01T00:00:00Z");
    assert_eq!(epoch_to_iso(951_827_696), "2000-02-29T12:34:56Z");
    assert_eq!(epoch_to_iso(1_767_225_599), "2025-12-31T23:59:59Z");
    assert_eq!(epoch_to_iso(1_767_225_600), "2026-01-01T00:00:00Z");
}

#[test]
fn dates_before_the_epoch_are_converted_too() {
    assert_eq!(epoch_to_iso(-1), "1969-12-31T23:59:59Z");
    assert_eq!(civil_from_days(-1), (1969, 12, 31));
    assert_eq!(civil_from_days(11_016), (2000, 2, 29));
}

#[test]
fn a_clock_before_the_epoch_reads_as_the_epoch() {
    assert_eq!(reading_to_iso(None), "1970-01-01T00:00:00Z");
    assert_eq!(reading_to_iso(Some(951_827_696)), "2000-02-29T12:34:56Z");
    let now = now_utc_iso();
    assert_eq!(now.len(), 20);
    assert!(now.as_str() > "2024-01-01T00:00:00Z");
}

#[test]
fn moments_compare_as_texts() {
    assert!(has_come("2024-01-02T03:00:00Z", "2024-01-02T03:00:00Z"));
    assert!(has_come("2024-01-02T03:00:00Z", "2024-01-02T03:00:01Z"));
    assert!(!has_come("2024-01-02T03:00:01Z", "2024-01-02T03:00:00Z"));
    assert!(has_come("2024-01-02", "2024-01-02T03:00:00Z"));
}

#[test]
fn queue_language_and_quality() {
    let item = QueueItem {
        languages: vec![Language {
            name: Some("Japanese".into()),
        }],
        quality: quality("Bluray-1080p"),
        ..QueueItem::default()
    };
    assert_eq!(queue_language(&item).as_deref(), Some("Japanese"));
    assert_eq!(queue_quality(&item).as_deref(), Some("Bluray-1080p"));

    let empty = QueueItem::default();
    assert_eq!(queue_language(&empty), None);
    assert_eq!(queue_quality(&empty), None);
}

#[test]
fn queue_timeleft_falls_back_to_dash() {
    let with = QueueItem {
        timeleft: Some("00:12:30".into()),
        ..QueueItem::default()
    };
    assert_eq!(queue_timeleft(&with), "00:12:30");
    assert_eq!(queue_timeleft(&QueueItem::default()), "-");
}

#[test]
fn queue_state_label_variants() {
    // 630 of 1000 bytes are in.
    let downloading = QueueItem {
        progress: 63,
        tracked_download_state: Some("downloading".into()),
        tracked_download_status: Some("ok".into()),
        ..QueueItem::default()
    };
    assert_eq!(queue_state_label(&downloading), "downloading 63%");

    let importing = QueueItem {
        tracked_download_state: Some("importPending".into()),
        ..QueueItem::default()
    };
    assert_eq!(queue_state_label(&importing), "import pending");

    let warned = QueueItem {
        status: Some("completed".into()),
        tracked_download_status: Some("warning".into()),
        ..QueueItem::default()
    };
    assert_eq!(queue_state_label(&warned), "completed (warning)");

    // No state or status at all reads as queued.
    assert_eq!(queue_state_label(&QueueItem::default()), "queued");
}

#[test]
fn release_line_torrent_vs_usenet() {
    let mut release = Release {
        age: 748,
        size: 1_503_238_553,
        indexer: Some("Nyaa".into()),
        protocol: Some("torrent".into()),
        seeders: Some(142),
        leechers: Some(7),
        languages: vec![Language {
            name: Some("Japanese".into()),
        }],
        quality: quality("Bluray-1080p"),
        ..Release::default()
    };
    assert_eq!(
        release_line2(&release),
        "748d • Nyaa • 1.4 GiB • ↑142 ↓7 • Japanese • Bluray-1080p"
    );

    release.protocol = Some("usenet".into());
    release.seeders = None;
    release.leechers = None;
    // Older payloads carry a single language object instead of a list.
    release.languages = Vec::new();
    release.language = Some(Language {
        name: Some("Japanese".into()),
    });
    assert_eq!(
        release_line2(&release),
        "748d • Nyaa • 1.4 GiB • Japanese • Bluray-1080p"
    );
}

#[test]
fn grabbed_before_matches_guid_or_title() {
    let release = Release {
        guid: "magnet-abc".into(),
        title: Some("Black.Clover.S01E06".into()),
        ..Release::default()
    };
    let by_guid = HistoryRecord {
        guid: Some("magnet-abc".into()),
        ..HistoryRecord::default()
    };
    let by_title = HistoryRecord {
        source_title: Some("Black.Clover.S01E06".into()),
        ..HistoryRecord::default()
    };
    let unrelated = HistoryRecord {
        source_title: Some("Other.Release".into()),
        guid: Some("magnet-xyz".into()),
        ..HistoryRecord::default()
    };
    assert!(previously_grabbed(&[by_guid], &release));
    assert!(previously_grabbed(&[by_title], &release));
    assert!(!previously_grabbed(&[unrelated], &release));
    assert!(!previously_grabbed(&[], &release));
}

#[test]
fn sizes_round_to_a_tenth() {
    assert_eq!(format_size(1024), "1.0 KiB");
    assert_eq!(format_size(1023), "1023 B");
    assert_eq!(format_size(1_048_576), "1.0 MiB");
    assert_eq!(format_size(1_073_741_824), "1.0 GiB");
}

#[test]
fn ages_and_years_as_they_are_shown() {
    assert_eq!(format_age_days(748), "748d");
    assert_eq!(year_label(Some(2021)).as_deref(), Some("2021"));
    assert_eq!(year_label(None), None);
}

#[test]
fn statuses_are_mapped_to_errors() {
    assert!(check_status(200, "200 OK".into()).is_ok());
    assert!(check_status(299, "299".into()).is_ok());
    assert!(matches!(
        check_status(401, "401 Unauthorized".into()),
        Err(Error::Unauthorized)
    ));
    assert!(matches!(
        check_status(403, "403 Forbidden".into()),
        Err(Error::Unauthorized)
    ));
    assert_eq!(
        check_status(404, "404 Not Found".into())
            .unwrap_err()
            .message(),
        "server returned 404 Not Found"
    );
    assert!(check_status(302, "302 Found".into()).is_err());
}

#[test]
fn errors_say_what_went_wrong() {
    assert_eq!(Error::InvalidHost("bad".into()).message(), "bad");
    assert_eq!(Error::MissingApiKey.message(), "no API key stored");
    assert_eq!(Error::Unauthorized.message(), "API key rejected by server");
    assert_eq!(
        Error::Http("timeout".into()).message(),
        "cannot reach server: timeout"
    );
}

#[test]
fn requests_name_their_endpoints() {
    assert_eq!(
        address("https://arr.example.com", "/api/v3/queue"),
        "https://arr.example.com/api/v3/queue"
    );
    assert_eq!(status_request().path, "/api/v3/system/status");
    assert_eq!(get_root_folders().path, "/api/v3/rootfolder");
    assert_eq!(get_quality_profiles().path, "/api/v3/qualityprofile");
    let command = get_command(42);
    assert_eq!(command.path, "/api/v3/command/42");
    assert_eq!(command.method, Method::Get);
    assert!(command.body.is_none());
}

#[test]
fn grabs_name_release_and_indexer() {
    let request = grab_release("magnet-abc", 7);
    assert_eq!(request.method, Method::Post);
    assert_eq!(request.path, "/api/v3/release");
    assert_eq!(
        request.body.unwrap().to_string(),
        r#"{"guid":"magnet-abc","indexerId":7}"#
    );
}

#[test]
fn removals_carry_their_ids_and_options() {
    let request = delete_queue_items(vec![10, 30], true, false);
    assert_eq!(request.method, Method::Delete);
    assert_eq!(request.path, "/api/v3/queue/bulk");
    assert_eq!(
        request.query,
        vec![
            ("removeFromClient".to_string(), "true".to_string()),
            ("blocklist".to_string(), "false".to_string()),
        ]
    );
    assert_eq!(request.body.unwrap().to_string(), r#"{"ids":[10,30]}"#);
}

#[test]
fn page_requests_come_before_the_own_parameters() {
    let own = vec![("includeEpisode".to_string(), "true".to_string())];
    let request = page_request("/api/v3/queue", &own, 2, 50);
    assert_eq!(
        request.query,
        vec![
            ("page".to_string(), "2".to_string()),
            ("pageSize".to_string(), "50".to_string()),
            ("includeEpisode".to_string(), "true".to_string()),
        ]
    );
    assert_eq!(get_queue(&own, 1).query[1].1, "1000");
}

#[test]
fn lists_are_followed_to_the_end() {
    let mut pages: Pages<i64> = Pages::new(2, 5);
    assert_eq!(pages.next, Paging::Fetch(1));
    pages.on_page(Page {
        total_records: 3,
        records: vec![1, 2],
    });
    assert_eq!(pages.next, Paging::Fetch(2));
    pages.on_page(Page {
        total_records: 3,
        records: vec![3],
    });
    assert_eq!(pages.next, Paging::Complete);
    assert_eq!(pages.records, vec![1, 2, 3]);
    // A page nobody asked for.
    pages.on_page(Page {
        total_records: 9,
        records: vec![4],
    });
    assert_eq!(pages.records, vec![1, 2, 3]);
}

#[test]
fn a_misreported_total_is_clipped_or_ended() {
    let mut pages: Pages<i64> = Pages::new(1, 2);
    for n in 0..2 {
        pages.on_page(Page {
            total_records: 1000,
            records: vec![n],
        });
    }
    assert_eq!(pages.next, Paging::Clipped);

    let mut short: Pages<i64> = Pages::new(10, 5);
    short.on_page(Page {
        total_records: 1000,
        records: vec![1],
    });
    assert_eq!(short.next, Paging::Complete);

    let none: Pages<i64> = Pages::new(10, 0);
    assert_eq!(none.next, Paging::Clipped);
}

#[test]
fn moments_of_four_digit_years_share_one_shape() {
    let moments = [
        -62_167_219_200,
        -1,
        0,
        951_827_696,
        951_827_697,
        253_402_300_799,
    ];
    let texts: Vec<String> = moments.iter().map(|&secs| epoch_to_iso(secs)).collect();
    assert_eq!(texts[0], "0000-01-01T00:00:00Z");
    assert_eq!(texts[5], "9999-12-31T23:59:59Z");
    for text in &texts {
        assert_eq!(text.len(), 20);
        for (i, c) in text.chars().enumerate() {
            match i {
                4 | 7 => assert_eq!(c, '-'),
                10 => assert_eq!(c, 'T'),
                13 | 16 => assert_eq!(c, ':'),
                19 => assert_eq!(c, 'Z'),
                _ => assert!(c.is_ascii_digit()),
            }
        }
    }
    for pair in texts.windows(2) {
        assert!(has_come(&pair[0], &pair[1]));
        assert!(!has_come(&pair[1], &pair[0]));
    }
}

#[test]
fn later_readings_give_later_texts() {
    let first = reading_to_iso(Some(1_767_225_599));
    let second = reading_to_iso(Some(1_767_225_600));
    assert!(first < second);
    assert!(has_come(&first, &second));
    assert!(has_come(&first, &first));
}
