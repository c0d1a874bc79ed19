use isamedia::config::{Config, JellyfinConfig, LanguageOverrides, TrackPreference};
use isamedia::lang::{canonical, find, name, LANGUAGES};
use isamedia::net::{host_problem, is_plain_http, normalize_host, HostError};
use isamedia::ui::theme::{Accent, Theme};

#[test]
fn overrides_path_sits_next_to_the_config() {
    assert_eq!(
        LanguageOverrides::path_for("/home/x/.config/isamedia/config.toml"),
        "/home/x/.config/isamedia/language_overrides.json"
    );
}

#[test]
fn overrides_path_of_a_name_alone() {
    assert_eq!(
        LanguageOverrides::path_for("config.toml"),
        "language_overrides.json"
    );
}

#[test]
fn language_prefs_precedence() {
    let jellyfin = JellyfinConfig {
        audio_language: Some(TrackPreference::Language("ita".into())),
        subtitle_language: Some(TrackPreference::Language("eng".into())),
        ..JellyfinConfig::default()
    };
    let mut overrides = LanguageOverrides::new();
    overrides.entry("show".into()).audio = Some(TrackPreference::Language("jpn".into()));

    // No override: globals apply.
    let prefs = overrides.language_prefs("movie", &jellyfin);
    assert_eq!(prefs.audio, Some(TrackPreference::Language("ita".into())));
    assert_eq!(
        prefs.subtitles,
        Some(TrackPreference::Language("eng".into()))
    );

    // Override wins per field; the unset subtitle field falls through.
    let prefs = overrides.language_prefs("show", &jellyfin);
    assert_eq!(prefs.audio, Some(TrackPreference::Language("jpn".into())));
    assert_eq!(
        prefs.subtitles,
        Some(TrackPreference::Language("eng".into()))
    );

    // No globals, no override: nothing.
    let prefs = LanguageOverrides::new().language_prefs("movie", &JellyfinConfig::default());
    assert!(prefs.audio.is_none());
    assert!(prefs.subtitles.is_none());
}

#[test]
fn a_slot_is_made_once() {
    let mut overrides = LanguageOverrides::new();
    overrides.entry("abc123".into()).audio = Some(TrackPreference::Default);
    overrides.entry("abc123".into()).subtitles = Some(TrackPreference::Language("eng".into()));
    assert_eq!(overrides.entries.len(), 1);
    let slot = overrides.entry("abc123".into());
    assert_eq!(slot.audio, Some(TrackPreference::Default));
    assert_eq!(slot.subtitles, Some(TrackPreference::Language("eng".into())));
}

#[test]
fn the_identity_is_filled_in_once() {
    let mut config = Config::default();
    config.ensure_identity();
    let device_id = config.jellyfin.device_id.clone();
    assert_eq!(device_id.len(), 36);
    for (i, c) in device_id.chars().enumerate() {
        match i {
            8 | 13 | 18 | 23 => assert_eq!(c, '-'),
            _ => assert!(c.is_ascii_digit() || ('a'..='f').contains(&c)),
        }
    }
    config.ensure_identity();
    assert_eq!(config.jellyfin.device_id, device_id);

    let mut other = Config::default();
    other.ensure_identity();
    assert_ne!(other.jellyfin.device_id, device_id);
}

#[test]
fn a_given_identity_stays() {
    let mut config = Config::default();
    config.jellyfin.device = "den".into();
    config.jellyfin.identify("box".into(), "id-1".into());
    assert_eq!(config.jellyfin.device, "den");
    assert_eq!(config.jellyfin.device_id, "id-1");
}

#[test]
fn defaults_are_latte_and_rosewater() {
    let config = Config::default();
    assert_eq!(config.theme, Theme::Latte);
    assert_eq!(config.accent, Accent::Rosewater);
    assert!(config.last_app.is_none());
    assert!(config.jellyfin.user_id.is_empty());
    assert_eq!(Theme::Latte.accent_count(), 14);
    assert_eq!(Theme::SolarizedLight.accent_count(), 0);
    assert_eq!(Accent::Mauve.index(), 3);
}

#[test]
fn languages_are_found_by_any_of_their_codes() {
    assert_eq!(canonical("deu"), "ger");
    assert_eq!(canonical("de"), "ger");
    assert_eq!(canonical("ger"), "ger");
    assert_eq!(canonical("qaa"), "qaa");
    assert_eq!(name("ita"), Some("Italian"));
    assert_eq!(name("qaa"), None);
    assert!(find(&LANGUAGES, "jpn").is_some());
}

#[test]
fn hosts_are_normalized() {
    assert_eq!(
        normalize_host("https://demo.jellyfin.org/").ok().as_deref(),
        Some("https://demo.jellyfin.org")
    );
    assert_eq!(
        normalize_host("  http://localhost:8096  ").ok().as_deref(),
        Some("http://localhost:8096")
    );
    assert!(is_plain_http("http://localhost:8096"));
    assert!(!is_plain_http("https://localhost:8096"));
    assert_eq!(host_problem(""), None);
    assert_eq!(host_problem("https://x"), None);
}

#[test]
fn each_bad_host_has_its_reason() {
    assert_eq!(normalize_host("demo.org"), Err(HostError::Scheme));
    assert_eq!(normalize_host("https:///"), Err(HostError::Empty));
    assert_eq!(normalize_host("https://de mo.org"), Err(HostError::Space));
    assert_eq!(normalize_host("HTTPS://demo.org//"), Ok("HTTPS://demo.org".to_string()));
    assert_eq!(HostError::Empty.message(), "host has no name");
}

#[test]
fn hosts_without_a_scheme_or_a_name_are_refused() {
    for text in ["demo.jellyfin.org", "ftp://x", "https://", "http:///"] {
        let refused: Result<String, HostError> = normalize_host(text);
        let reason = refused.unwrap_err().message();
        assert!(!reason.is_empty());
        assert_eq!(host_problem(text), Some(reason));
    }
}

#[test]
fn settings_that_were_stored_come_back_unchanged() {
    let first = Config::load_or_init(None);
    assert_eq!(first.jellyfin.device_id.len(), 36);
    assert_eq!(first.jellyfin.host, "");
    assert!(first.last_app.is_none());
    let (device, id) = (first.jellyfin.device.clone(), first.jellyfin.device_id.clone());
    let second = Config::load_or_init(Some(first));
    assert_eq!(second.jellyfin.device, device);
    assert_eq!(second.jellyfin.device_id, id);
}

#[test]
fn overrides_path_of_an_odd_directory_still_ends_in_the_name() {
    for path in ["//server/config.toml", "./config.toml", "dir/"] {
        assert!(LanguageOverrides::path_for(path).ends_with("language_overrides.json"));
    }
}

#[test]
fn the_table_holds_every_language_of_the_standard() {
    assert_eq!(LANGUAGES.len(), 486);
    assert_eq!(name("afr"), Some("Afrikaans"));
    assert_eq!(canonical("la"), "lat");
    assert_eq!(canonical("mri"), "mao");
    // No code is a picker's own key, and none names two languages.
    let mut codes = Vec::new();
    for language in LANGUAGES {
        for own in ["unset", "default", "off"] {
            assert!(find(&[language], own).is_none());
        }
        codes.push(language.0);
        if language.1 != language.0 {
            codes.push(language.1);
        }
        if language.2 != language.0 {
            codes.push(language.2);
        }
    }
    let count = codes.len();
    codes.sort();
    codes.dedup();
    assert_eq!(codes.len(), count);
}

#[test]
fn every_white_space_character_counts() {
    for c in [' ', '\t', '\n', '\u{b}', '\u{c}', '\r', '\u{a0}', '\u{3000}'] {
        assert_eq!(
            normalize_host(&format!("{c}http://a{c}")),
            Ok("http://a".to_string())
        );
        assert_eq!(
            normalize_host(&format!("http://a{c}b")),
            Err(HostError::Space)
        );
    }
    // A control character that is no white space stays.
    assert_eq!(
        normalize_host("http://a\u{8}\u{e}"),
        Ok("http://a\u{8}\u{e}".to_string())
    );
}
