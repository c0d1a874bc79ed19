use std::sync::Arc;

use isamedia::app::{KeyCode, KeyEvent};
use isamedia::apps::jellyfin::library::{
    build_library_query, group_seasons, info_available, library_kind, playable,
    server_filter_level, should_fetch_more, sort_options, LibraryKind, LibraryLevel, Sort, SortDir,
    SortField, Tab, PAGE_SIZE,
};
use isamedia::apps::jellyfin::login::{LoginAction, LoginForm};
use isamedia::config::JellyfinConfig;
use isamedia::jellyfin::{
    episode_code, item_description, item_title, override_key, season_name, ItemKind, MediaItem,
    UserData,
};
use isamedia::ui::line::Tone;

#[test]
fn tab_cycle_wraps() {
    assert_eq!(Tab::RecentlyAdded.next(), Tab::Libraries);
    assert_eq!(Tab::Libraries.next(), Tab::Search);
    assert_eq!(Tab::Search.next(), Tab::Resume);
    assert_eq!(Tab::Resume.prev(), Tab::Search);
    assert_eq!(Tab::Resume.next(), Tab::NextUp);
}

fn library(id: &str, collection_type: Option<&str>) -> MediaItem {
    MediaItem {
        id: id.into(),
        name: Some(id.to_string()),
        kind: ItemKind::CollectionFolder,
        collection_type: collection_type.map(str::to_string),
        ..Default::default()
    }
}

#[test]
fn library_kind_classifies_by_collection_type() {
    assert_eq!(
        library_kind(&library("a", Some("movies"))),
        LibraryKind::Movies
    );
    assert_eq!(
        library_kind(&library("b", Some("tvshows"))),
        LibraryKind::Shows
    );
    assert_eq!(
        library_kind(&library("c", Some("boxsets"))),
        LibraryKind::Other
    );
    assert_eq!(
        library_kind(&library("d", Some("music"))),
        LibraryKind::Other
    );
    assert_eq!(library_kind(&library("e", None)), LibraryKind::Other);
}

fn episode(season: Option<i32>, number: i32, played: bool) -> Arc<MediaItem> {
    Arc::new(MediaItem {
        id: "x".into(),
        kind: ItemKind::Episode,
        parent_index_number: season,
        index_number: Some(number),
        user_data: Some(UserData {
            played: Some(played),
            ..Default::default()
        }),
        ..Default::default()
    })
}

#[test]
fn group_seasons_buckets_by_number_in_first_seen_order() {
    let items = vec![
        episode(Some(1), 1, true),
        episode(Some(1), 2, false),
        episode(Some(2), 1, false),
        episode(None, 1, true), // a special with no season number
        episode(Some(2), 2, true),
    ];
    let seasons = group_seasons(&items);
    assert_eq!(seasons.len(), 3);
    // First-seen order preserved: season 1, season 2, then the None bucket.
    assert_eq!(seasons[0].number, Some(1));
    assert_eq!((seasons[0].episode_count, seasons[0].watched_count), (2, 1));
    assert_eq!(seasons[1].number, Some(2));
    assert_eq!((seasons[1].episode_count, seasons[1].watched_count), (2, 1));
    assert_eq!(seasons[2].number, None);
    assert_eq!((seasons[2].episode_count, seasons[2].watched_count), (1, 1));
    assert!(group_seasons(&[]).is_empty());
}

#[test]
fn sort_api_params_cover_all_options() {
    let expected = [
        ("DateCreated", "Descending"),
        ("DateCreated", "Ascending"),
        ("SortName", "Ascending"),
        ("SortName", "Descending"),
        ("PremiereDate", "Descending"),
        ("PremiereDate", "Ascending"),
    ];
    for (sort, expected) in sort_options().iter().zip(expected) {
        assert_eq!(sort.api_params(), expected);
    }
    assert_eq!(Sort::default().api_params(), ("DateCreated", "Descending"));
    assert_eq!(
        sort_options()[0],
        Sort::default(),
        "default sorts first in the menu"
    );
}

#[test]
fn sorts_know_their_place_in_the_menu() {
    for (i, sort) in sort_options().into_iter().enumerate() {
        assert_eq!(sort.index(), i);
        assert!(!sort.label().is_empty());
    }
}

#[test]
fn should_fetch_more_predicate() {
    // Never while a fetch is already in flight.
    assert!(!should_fetch_more(99, 100, 500, true));
    // Never once everything is loaded.
    assert!(!should_fetch_more(99, 100, 100, false));
    // Not while the cursor is far from the end of the window.
    assert!(!should_fetch_more(10, 100, 500, false));
    // At the threshold, with more available.
    assert!(should_fetch_more(80, 100, 500, false));
    // An empty list has nothing to page.
    assert!(!should_fetch_more(0, 0, 0, false));
}

fn level(id: &str, collection_type: &str, kind: LibraryKind) -> LibraryLevel {
    LibraryLevel::Library {
        library: Arc::new(library(id, Some(collection_type))),
        kind,
    }
}

fn collection(id: &str) -> LibraryLevel {
    LibraryLevel::Collection {
        library: Arc::new(library(id, Some("boxsets"))),
        collection: Arc::new(MediaItem {
            id: "box1".into(),
            kind: ItemKind::BoxSet,
            ..Default::default()
        }),
    }
}

#[test]
fn server_filter_only_in_recursive_library_listings() {
    // Jellyfin ignores searchTerm on non-recursive queries, so only the
    // recursive movie/show listings may filter server-side.
    let movies = level("m", "movies", LibraryKind::Movies);
    let shows = level("t", "tvshows", LibraryKind::Shows);
    let other = level("o", "boxsets", LibraryKind::Other);
    let collection = collection("o");
    assert!(server_filter_level(&movies));
    assert!(server_filter_level(&shows));
    assert!(!server_filter_level(&other));
    assert!(!server_filter_level(&collection));
    assert!(!server_filter_level(&LibraryLevel::Root));
}

#[test]
fn library_query_per_level() {
    let movies = level("lib-movies", "movies", LibraryKind::Movies);
    let query = build_library_query(&movies, Sort::default(), None, 0).unwrap();
    assert_eq!(query.parent_id, "lib-movies");
    assert_eq!(query.include_item_types, Some("Movie"));
    assert!(query.recursive);
    assert_eq!(query.limit, PAGE_SIZE);
    assert_eq!(query.search_term, None);

    let shows = level("lib-shows", "tvshows", LibraryKind::Shows);
    let query = build_library_query(&shows, Sort::default(), Some("expanse"), 100).unwrap();
    assert_eq!(query.include_item_types, Some("Series"));
    assert!(query.recursive);
    assert_eq!(query.start_index, 100);
    assert_eq!(query.search_term.as_deref(), Some("expanse"));

    let other = level("lib-other", "boxsets", LibraryKind::Other);
    let query = build_library_query(&other, Sort::default(), Some(""), 0).unwrap();
    assert_eq!(query.include_item_types, None);
    assert!(!query.recursive, "collections list direct children");
    assert_eq!(query.search_term, None, "empty filter sends no searchTerm");

    let collection = collection("lib-other");
    let sort = Sort {
        field: SortField::Name,
        dir: SortDir::Ascending,
    };
    let query = build_library_query(&collection, sort, None, 0).unwrap();
    assert_eq!(query.parent_id, "box1");
    assert_eq!((query.sort_by, query.sort_order), ("SortName", "Ascending"));

    assert!(build_library_query(&LibraryLevel::Root, Sort::default(), None, 0).is_none());
}

#[test]
fn only_media_plays() {
    for (kind, plays) in [
        (ItemKind::Movie, true),
        (ItemKind::Episode, true),
        (ItemKind::Video, true),
        (ItemKind::Series, false),
        (ItemKind::BoxSet, false),
        (ItemKind::CollectionFolder, false),
        (ItemKind::Other, false),
    ] {
        let item = MediaItem {
            kind,
            ..Default::default()
        };
        assert_eq!(playable(&item), plays);
        if plays {
            assert!(info_available(&item));
        }
    }
}

#[test]
fn items_are_titled_and_described() {
    let item = MediaItem {
        id: "e1".into(),
        name: Some("Dulcinea".into()),
        kind: ItemKind::Episode,
        series_id: Some("s1".into()),
        series_name: Some("The Expanse".into()),
        parent_index_number: Some(1),
        index_number: Some(2),
        production_year: Some(2015),
        rating: Some("8.4".into()),
        runtime: Some("44m".into()),
        ..Default::default()
    };
    assert_eq!(episode_code(&item), "S01E02");
    assert_eq!(item_title(&item), "The Expanse - S01E02 - Dulcinea");
    assert_eq!(item_description(&item), "2015 • 8.4 • 44m");
    assert_eq!(override_key(&item), "s1");
    let movie = MediaItem {
        id: "m1".into(),
        ..Default::default()
    };
    assert_eq!(item_title(&movie), "(untitled)");
    assert_eq!(item_description(&movie), "");
    assert_eq!(override_key(&movie), "m1");
    assert_eq!(season_name(None), "Specials");
    assert_eq!(season_name(Some(3)), "Season 3");
}

fn form() -> LoginForm {
    LoginForm::from_config(&JellyfinConfig::default())
}

#[test]
fn esc_while_busy_cancels_the_attempt() {
    let mut form = form();
    form.busy = true;
    assert!(matches!(
        form.on_key(KeyEvent::plain(KeyCode::Esc)),
        Some(LoginAction::Cancel)
    ));
}

#[test]
fn other_keys_are_ignored_while_busy() {
    let mut form = form();
    form.busy = true;
    assert!(form.on_key(KeyEvent::plain(KeyCode::Char('a'))).is_none());
    assert!(form.on_key(KeyEvent::plain(KeyCode::Enter)).is_none());
}

#[test]
fn esc_is_ignored_when_not_busy() {
    // The entry screen has nowhere to cancel back to, so Esc is a no-op
    // unless an attempt is in flight.
    let mut form = form();
    assert!(form.on_key(KeyEvent::plain(KeyCode::Esc)).is_none());
}

#[test]
fn a_login_needs_host_and_username() {
    let mut form = form();
    // A field has the focus, then the buttons.
    assert!(form.action_row_focused());
    for _ in 0..3 {
        form.on_key(KeyEvent::plain(KeyCode::Down));
    }
    assert!(!form.action_row_focused());
    assert!(form.on_key(KeyEvent::plain(KeyCode::Enter)).is_none());
    assert_eq!(form.error.as_deref(), Some("enter the host"));
    assert_eq!(form.status().tone, Tone::Error);

    let mut config = JellyfinConfig::default();
    config.host = "http://jelly.example".into();
    let form = LoginForm::from_config(&config);
    assert_eq!(form.invalid_reason().as_deref(), Some("enter the username"));
    assert!(form.plain_http());
    assert_eq!(
        form.status().text,
        " http:// is unencrypted; prefer https://"
    );

    config.username = "alice".into();
    let mut form = LoginForm::from_config(&config);
    for _ in 0..3 {
        form.on_key(KeyEvent::plain(KeyCode::Down));
    }
    assert!(matches!(
        form.on_key(KeyEvent::plain(KeyCode::Enter)),
        Some(LoginAction::Submit)
    ));
    assert_eq!(form.password(), "");
}
