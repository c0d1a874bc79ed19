use isamedia::app::{KeyCode, KeyEvent, ShellRequest};
use isamedia::apps::settings::backend::{
    backend_host, backend_label, connect_call, secret_key, validate_and_persist, BackendEditor,
    ConnectCall, Connection, SaveRequest, HOST, SECRET,
};
use isamedia::apps::settings::view::{
    draw_editor, language_rows, list_rows, picker_title, submenu_rows,
};
use isamedia::apps::settings::{
    choice_count, current_choice_index, language_picker, preference_key, preference_label, rows,
    Editing, Editor, LanguageEditor, Setting, SettingsApp, SettingsRequest,
};
use isamedia::config::{Config, TrackPreference};
use isamedia::ui::line::{Span, Tone};
use isamedia::ui::theme::{Accent, Theme};

fn key(code: KeyCode) -> KeyEvent {
    KeyEvent::plain(code)
}

fn screen(lines: &[Vec<Span>]) -> String {
    let mut out = String::new();
    for line in lines {
        for span in line {
            out.push_str(&span.text);
        }
        out.push('\n');
    }
    out
}

/// The current settings screen (with whatever editor is open) as text.
fn draw_to_text(settings: &SettingsApp, config: &Config) -> String {
    match &settings.editor {
        Editor::Closed => screen(&list_rows(settings.cursor, config)),
        Editor::Choice(editing) => {
            let (title, lines) = draw_editor(editing, config);
            format!("{title}\n{}", screen(&lines))
        }
        Editor::Backend(editor) => {
            let mut out = format!("{}\n", backend_label(editor.backend));
            for field in &editor.form.fields {
                out.push_str(field.label);
                out.push('\n');
            }
            out.push_str(editor.form.save_label);
            out.push('\n');
            if editor.form.cancel {
                out.push_str("Cancel\n");
            }
            out
        }
        Editor::JellyfinMenu { cursor } => screen(&submenu_rows(*cursor, config)),
        Editor::Language(editor) => screen(&language_rows(editor.cursor, config)),
    }
}

#[test]
fn capturing_text_tracks_the_open_text_editor() {
    let mut settings = SettingsApp::new();
    // The list and the navigable overlays are not text entry, so `s` is
    // free to act as the global stop shortcut over them.
    assert!(!settings.capturing_text());
    settings.editor = Editor::Choice(Editing {
        setting: Setting::Theme,
        cursor: 0,
    });
    assert!(!settings.capturing_text());
    settings.editor = Editor::JellyfinMenu { cursor: 0 };
    assert!(!settings.capturing_text());
    // A language page with the picker closed is navigable; opening the
    // picker focuses its filter input.
    settings.editor = Editor::Language(LanguageEditor {
        cursor: 0,
        picker: None,
    });
    assert!(!settings.capturing_text());
    settings.editor = Editor::Language(LanguageEditor {
        cursor: 0,
        picker: Some(language_picker(0)),
    });
    assert!(settings.capturing_text());
    // A freshly opened credentials form has a field (not the action row)
    // focused, so a keystroke is text and must not stop playback.
    settings.editor = Editor::Backend(BackendEditor::from_config(
        Setting::Jellyfin,
        &Config::default(),
    ));
    assert!(settings.capturing_text());
}

#[test]
fn list_shows_backend_rows() {
    let settings = SettingsApp::new();
    let text = draw_to_text(&settings, &Config::default());
    for label in ["Jellyfin", "Radarr", "Sonarr"] {
        assert!(text.contains(label), "missing {label} row in:\n{text}");
    }
    // An empty config host reads as unconfigured.
    assert!(text.contains("not configured"), "{text}");
}

#[test]
fn configured_host_is_shown() {
    let mut config = Config::default();
    config.radarr.host = "https://radarr.example".into();
    let settings = SettingsApp::new();
    assert!(draw_to_text(&settings, &config).contains("https://radarr.example"));
}

#[test]
fn opening_a_backend_shows_the_form_and_esc_cancels() {
    let mut config = Config::default();
    let mut settings = SettingsApp::new();
    // Jellyfin opens the submenu, not the form; Enter on Credentials
    // opens the form.
    settings.open(Setting::Jellyfin, &config);
    assert!(matches!(
        settings.editor,
        Editor::JellyfinMenu { cursor: 0 }
    ));
    let text = draw_to_text(&settings, &config);
    for label in ["Credentials", "Language"] {
        assert!(text.contains(label), "missing {label} in:\n{text}");
    }
    settings.on_key(key(KeyCode::Enter), &mut config);
    assert!(matches!(settings.editor, Editor::Backend(_)));

    // The Jellyfin form shows host, username and password fields plus the
    // Save/Cancel action rows.
    let text = draw_to_text(&settings, &config);
    for label in ["Jellyfin", "Host", "Username", "Password", "Save", "Cancel"] {
        assert!(text.contains(label), "missing {label} in:\n{text}");
    }

    // Esc backs out one level at a time: form -> submenu -> list.
    settings.on_key(key(KeyCode::Esc), &mut config);
    assert!(matches!(settings.editor, Editor::JellyfinMenu { .. }));
    settings.on_key(key(KeyCode::Esc), &mut config);
    assert!(matches!(settings.editor, Editor::Closed));

    // The *arr rows keep opening their form directly, without a username
    // row, and Esc returns straight to the list.
    settings.open(Setting::Radarr, &config);
    assert!(matches!(settings.editor, Editor::Backend(_)));
    let text = draw_to_text(&settings, &config);
    assert!(text.contains("API key"), "missing API key in:\n{text}");
    assert!(
        !text.contains("Username"),
        "unexpected Username in:\n{text}"
    );

    settings.on_key(key(KeyCode::Esc), &mut config);
    assert!(matches!(settings.editor, Editor::Closed));
}

#[test]
fn save_with_empty_host_shows_error() {
    let mut config = Config::default();
    let mut settings = SettingsApp::new();
    // Default config has an empty Jellyfin host. Enter the credentials
    // form through the submenu.
    settings.open(Setting::Jellyfin, &config);
    settings.on_key(key(KeyCode::Enter), &mut config);
    // Walk Host -> Username -> Password -> Save, then confirm.
    for _ in 0..3 {
        settings.on_key(key(KeyCode::Down), &mut config);
    }
    settings.on_key(key(KeyCode::Enter), &mut config);
    // Still open, with an error and no in-flight connect (nothing asked for).
    match &settings.editor {
        Editor::Backend(editor) => {
            assert!(editor.error.is_some(), "expected a validation error");
            assert!(!editor.busy, "must not start connecting on an invalid form");
        }
        _ => panic!("form should stay open on an invalid save"),
    }
    assert!(settings.take_requests().is_empty());
}

#[test]
fn blank_secret_is_left_to_the_server() {
    // The credential is validated by the server, not by the form: a blank
    // secret still submits (and then fails auth), so the form only requires
    // the host and, for Jellyfin, the username. The stored secret is never
    // reused, so a bare re-save cannot silently re-authenticate.
    let mut config = Config::default();
    config.radarr.host = "https://radarr.example".into();
    let radarr = BackendEditor::from_config(Setting::Radarr, &config);
    assert!(
        radarr.invalid_reason().is_none(),
        "the form must not require the API key itself"
    );

    config.jellyfin.host = "https://jelly.example".into();
    config.jellyfin.username = "alice".into();
    let jellyfin = BackendEditor::from_config(Setting::Jellyfin, &config);
    assert!(
        jellyfin.invalid_reason().is_none(),
        "the form must not require the password itself"
    );
}

#[test]
fn successful_jellyfin_save_signals_reauth() {
    let mut config = Config::default();
    let mut settings = SettingsApp::new();

    // A successful Jellyfin save bumps the counter so the Jellyfin tab picks
    // up the fresh token instead of forcing a re-login, and lands back in
    // the submenu the form was opened from.
    settings.open(Setting::Jellyfin, &config);
    settings.on_key(key(KeyCode::Enter), &mut config);
    let save_gen = settings.save_gen;
    settings.on_save_done(save_gen, Ok(()), &config);
    assert_eq!(settings.reauth, 1);
    assert!(matches!(settings.editor, Editor::JellyfinMenu { .. }));

    // An *arr save must not signal it: API-key auth is stateless, so the
    // running tab keeps working. Its form closes back to the list.
    settings.open(Setting::Radarr, &config);
    let save_gen = settings.save_gen;
    settings.on_save_done(save_gen, Ok(()), &config);
    assert_eq!(settings.reauth, 1);
    assert!(matches!(settings.editor, Editor::Closed));
}

#[test]
fn language_page_persists_picker_choices() {
    let mut config = Config::default();
    let mut settings = SettingsApp::new();
    settings.open(Setting::Jellyfin, &config);
    settings.on_key(key(KeyCode::Down), &mut config); // Credentials -> Language
    settings.on_key(key(KeyCode::Enter), &mut config);
    assert!(matches!(settings.editor, Editor::Language(_)));

    // Audio row: filter down to Italian and choose it.
    settings.on_key(key(KeyCode::Enter), &mut config);
    for c in "italia".chars() {
        settings.on_key(key(KeyCode::Char(c)), &mut config);
    }
    settings.on_key(key(KeyCode::Down), &mut config); // skip "No preference"
    settings.on_key(key(KeyCode::Down), &mut config); // skip "Default track"
    settings.on_key(key(KeyCode::Enter), &mut config);
    assert_eq!(
        config.jellyfin.audio_language,
        Some(TrackPreference::Language("ita".into()))
    );
    assert!(matches!(
        settings.take_requests().as_slice(),
        [SettingsRequest::SaveConfig]
    ));

    // Subtitles row: the pinned "None (off)" choice.
    settings.on_key(key(KeyCode::Down), &mut config);
    settings.on_key(key(KeyCode::Enter), &mut config);
    settings.on_key(key(KeyCode::Down), &mut config); // "No preference" -> "None (off)"
    settings.on_key(key(KeyCode::Enter), &mut config);
    assert_eq!(config.jellyfin.subtitle_language, Some(TrackPreference::Off));

    // Back to "No preference" clears the value again. The picker reopens
    // seeded on the current value ("None (off)"), so step up once.
    settings.on_key(key(KeyCode::Enter), &mut config);
    settings.on_key(key(KeyCode::Up), &mut config);
    settings.on_key(key(KeyCode::Enter), &mut config);
    assert_eq!(config.jellyfin.subtitle_language, None);

    // Esc chain: language page -> submenu (Language row) -> list.
    settings.on_key(key(KeyCode::Esc), &mut config);
    assert!(matches!(
        settings.editor,
        Editor::JellyfinMenu { cursor: 1 }
    ));
    settings.on_key(key(KeyCode::Esc), &mut config);
    assert!(matches!(settings.editor, Editor::Closed));
}

#[test]
fn submenu_backspace_backs_out_and_q_quits() {
    let mut config = Config::default();
    let mut settings = SettingsApp::new();
    settings.open(Setting::Jellyfin, &config);
    assert!(matches!(
        settings.on_key(key(KeyCode::Char('q')), &mut config),
        Some(ShellRequest::Quit)
    ));
    // Quitting is the shell's business; the submenu stays as it was.
    assert!(matches!(settings.editor, Editor::JellyfinMenu { .. }));
    settings.on_key(key(KeyCode::Backspace), &mut config);
    assert!(matches!(settings.editor, Editor::Closed));
}

#[test]
fn language_page_backspace_and_q_unless_picker_is_typing() {
    let mut config = Config::default();
    let mut settings = SettingsApp::new();
    settings.editor = Editor::Language(LanguageEditor {
        cursor: 0,
        picker: None,
    });
    assert!(matches!(
        settings.on_key(key(KeyCode::Char('q')), &mut config),
        Some(ShellRequest::Quit)
    ));

    // With the picker open, q and Backspace belong to the filter input.
    settings.on_key(key(KeyCode::Enter), &mut config);
    assert!(settings
        .on_key(key(KeyCode::Char('q')), &mut config)
        .is_none());
    assert!(settings
        .on_key(key(KeyCode::Backspace), &mut config)
        .is_none());
    match &settings.editor {
        Editor::Language(editor) => assert!(editor.picker.is_some()),
        _ => panic!("picker should still be open"),
    }
    settings.on_key(key(KeyCode::Esc), &mut config); // close the picker

    // Back on the page rows, Backspace returns to the submenu.
    settings.on_key(key(KeyCode::Backspace), &mut config);
    assert!(matches!(
        settings.editor,
        Editor::JellyfinMenu { cursor: 1 }
    ));
}

#[test]
fn credentials_form_backspace_and_q_on_the_buttons() {
    let mut config = Config::default();
    let mut settings = SettingsApp::new();
    settings.open(Setting::Radarr, &config);
    // On a field, q is input, not quit.
    assert!(settings
        .on_key(key(KeyCode::Char('q')), &mut config)
        .is_none());
    match &settings.editor {
        Editor::Backend(editor) => assert_eq!(editor.form.text(HOST), "q"),
        _ => panic!("form should be open"),
    }
    // Walk Host -> API key -> Save: there q quits and Backspace cancels.
    settings.on_key(key(KeyCode::Down), &mut config);
    settings.on_key(key(KeyCode::Down), &mut config);
    assert!(matches!(
        settings.on_key(key(KeyCode::Char('q')), &mut config),
        Some(ShellRequest::Quit)
    ));
    settings.on_key(key(KeyCode::Backspace), &mut config);
    assert!(matches!(settings.editor, Editor::Closed));

    // The Jellyfin form cancels back into the submenu instead.
    settings.open(Setting::Jellyfin, &config);
    settings.on_key(key(KeyCode::Enter), &mut config);
    for _ in 0..3 {
        settings.on_key(key(KeyCode::Down), &mut config); // -> Save
    }
    settings.on_key(key(KeyCode::Backspace), &mut config);
    assert!(matches!(settings.editor, Editor::JellyfinMenu { .. }));
}

#[test]
fn picker_seeds_from_non_canonical_codes() {
    // A hand-edited config may hold a /T or 639-1 form; the picker must
    // still open on the matching row (which then re-stores it as /B).
    let mut config = Config::default();
    let mut settings = SettingsApp::new();
    config.jellyfin.audio_language = Some(TrackPreference::Language("deu".into()));
    settings.editor = Editor::Language(LanguageEditor {
        cursor: 0,
        picker: None,
    });
    settings.on_key(key(KeyCode::Enter), &mut config); // open, seeded on German
    settings.on_key(key(KeyCode::Enter), &mut config); // choose it
    assert_eq!(
        config.jellyfin.audio_language,
        Some(TrackPreference::Language("ger".into()))
    );
}

#[test]
fn language_summaries_are_shown() {
    let mut config = Config::default();
    let mut settings = SettingsApp::new();
    config.jellyfin.audio_language = Some(TrackPreference::Language("ita".into()));
    config.jellyfin.subtitle_language = Some(TrackPreference::Off);
    settings.editor = Editor::JellyfinMenu { cursor: 1 };
    let text = draw_to_text(&settings, &config);
    assert!(text.contains("audio: Italian (ita)"), "{text}");
    assert!(text.contains("subs: off"), "{text}");

    settings.editor = Editor::Language(LanguageEditor {
        cursor: 0,
        picker: None,
    });
    let text = draw_to_text(&settings, &config);
    assert!(text.contains("Italian (ita)"), "{text}");
}

#[test]
fn the_accent_row_follows_the_theme() {
    assert_eq!(
        rows(Theme::Latte),
        vec![
            Setting::Theme,
            Setting::Accent,
            Setting::Jellyfin,
            Setting::Radarr,
            Setting::Sonarr,
        ]
    );
    assert!(!rows(Theme::SolarizedLight).contains(&Setting::Accent));
    let config = Config::default();
    assert_eq!(choice_count(Setting::Theme, &config), 2);
    assert_eq!(choice_count(Setting::Accent, &config), 14);
    assert_eq!(choice_count(Setting::Radarr, &config), 0);
}

#[test]
fn a_choice_is_applied_and_saved() {
    let mut config = Config::default();
    let mut settings = SettingsApp::new();
    settings.on_key(key(KeyCode::Enter), &mut config); // opens the theme list
    assert!(matches!(
        settings.editor,
        Editor::Choice(Editing {
            setting: Setting::Theme,
            cursor: 0
        })
    ));
    settings.on_key(key(KeyCode::Down), &mut config);
    settings.on_key(key(KeyCode::Enter), &mut config);
    assert_eq!(config.theme, Theme::SolarizedLight);
    assert_eq!(current_choice_index(Setting::Theme, &config), 1);
    assert!(matches!(settings.editor, Editor::Closed));
    assert!(matches!(
        settings.take_requests().as_slice(),
        [SettingsRequest::SaveConfig]
    ));
}

#[test]
fn accents_keep_their_place_in_the_menu() {
    let mut config = Config::default();
    let mut settings = SettingsApp::new();
    settings.apply(Setting::Accent, 3, &mut config);
    assert_eq!(config.accent, Accent::Mauve);
    assert_eq!(current_choice_index(Setting::Accent, &config), 3);
    let (title, lines) = draw_editor(
        &Editing {
            setting: Setting::Accent,
            cursor: 3,
        },
        &config,
    );
    assert_eq!(title, "Accent");
    assert_eq!(lines.len(), 14);
    assert!(lines[3]
        .iter()
        .any(|s| s.tone == Tone::Swatch(Accent::Mauve)));
}

#[test]
fn a_valid_form_connects_once_and_cancels() {
    let mut config = Config::default();
    config.radarr.host = "https://radarr.example/".into();
    let mut settings = SettingsApp::new();
    settings.open(Setting::Radarr, &config);
    settings.on_key(key(KeyCode::Down), &mut config); // -> API key
    for c in "abc".chars() {
        settings.on_key(key(KeyCode::Char(c)), &mut config);
    }
    settings.on_key(key(KeyCode::Enter), &mut config); // -> Save
    settings.on_key(key(KeyCode::Enter), &mut config);
    settings.on_key(key(KeyCode::Enter), &mut config); // already connecting
    let requests = settings.take_requests();
    assert_eq!(requests.len(), 1);
    match &requests[0] {
        SettingsRequest::Connect { save_gen, request } => {
            assert_eq!(*save_gen, settings.save_gen);
            assert_eq!(request.host, "https://radarr.example/");
            assert_eq!(request.typed_secret, "abc");
            assert!(request.username.is_none());
        }
        _ => panic!("expected a connect"),
    }
    // Leaving makes the answer stale.
    let stale = settings.save_gen;
    settings.on_key(key(KeyCode::Esc), &mut config);
    assert_ne!(settings.save_gen, stale);
    settings.on_save_done(stale, Err("too late".into()), &config);
    assert!(matches!(settings.editor, Editor::Closed));
}

#[test]
fn a_failed_save_keeps_the_form_with_its_reason() {
    let mut config = Config::default();
    config.sonarr.host = "https://sonarr.example".into();
    let mut settings = SettingsApp::new();
    settings.open(Setting::Sonarr, &config);
    let save_gen = settings.save_gen;
    settings.on_save_done(save_gen, Err("API key rejected by server".into()), &config);
    match &settings.editor {
        Editor::Backend(editor) => {
            assert_eq!(editor.error.as_deref(), Some("API key rejected by server"));
            assert!(!editor.busy);
            assert_eq!(editor.status().tone, Tone::Error);
        }
        _ => panic!("the form should stay open"),
    }
    assert_eq!(settings.reauth, 0);
}

fn save(backend: Setting, host: &str, username: Option<&str>, secret: &str) -> SaveRequest {
    SaveRequest {
        backend,
        host: host.into(),
        username: username.map(str::to_string),
        typed_secret: secret.into(),
        device: "box".into(),
        device_id: "id".into(),
    }
}

#[test]
fn connects_are_made_with_what_was_typed() {
    match connect_call(&save(Setting::Radarr, "https://radarr.example/", None, "key")) {
        Ok(ConnectCall::Radarr { host, api_key }) => {
            assert_eq!(host, "https://radarr.example/");
            assert_eq!(api_key, "key");
        }
        _ => panic!("expected a connect with the key"),
    }
    match connect_call(&save(Setting::Jellyfin, "https://jelly.example", Some("alice"), "")) {
        Ok(ConnectCall::Jellyfin {
            username, password, ..
        }) => {
            assert_eq!(username, "alice");
            assert_eq!(password, "");
        }
        _ => panic!("expected a login"),
    }
    assert_eq!(
        connect_call(&save(Setting::Theme, "", None, "")).err().unwrap(),
        "not a backend"
    );
}

fn connection() -> Connection {
    Connection {
        host: "https://reached.example".into(),
        user_id: "u1".into(),
        token: "t1".into(),
    }
}

#[test]
fn a_validated_save_is_persisted() {
    let mut config = Config::default();
    let secrets = validate_and_persist(
        save(Setting::Jellyfin, "https://jelly.example", Some("alice"), "pw"),
        Ok(connection()),
        &mut config,
    )
    .unwrap();
    assert_eq!(config.jellyfin.host, "https://jelly.example");
    assert_eq!(config.jellyfin.username, "alice");
    assert_eq!(config.jellyfin.user_id, "u1");
    assert_eq!(
        secrets,
        vec![
            ("jellyfin-token", "t1".to_string()),
            ("jellyfin-password", "pw".to_string()),
        ]
    );
}

#[test]
fn a_blank_key_is_not_stored() {
    let mut config = Config::default();
    let secrets = validate_and_persist(
        save(Setting::Sonarr, "sonarr.example", None, ""),
        Ok(connection()),
        &mut config,
    )
    .unwrap();
    assert_eq!(config.sonarr.host, "https://reached.example");
    assert!(secrets.is_empty());
}

#[test]
fn a_refused_save_changes_nothing() {
    let mut config = Config::default();
    let refused = validate_and_persist(
        save(Setting::Radarr, "https://radarr.example", None, "key"),
        Err("API key rejected by server".into()),
        &mut config,
    );
    assert_eq!(refused.unwrap_err(), "API key rejected by server");
    assert_eq!(config.radarr.host, "");
}

#[test]
fn preferences_as_keys_and_labels() {
    assert_eq!(preference_label(&None), "no preference");
    assert_eq!(preference_label(&Some(TrackPreference::Off)), "off");
    assert_eq!(
        preference_label(&Some(TrackPreference::Language("ger".into()))),
        "German (ger)"
    );
    assert_eq!(
        preference_label(&Some(TrackPreference::Language("xx".into()))),
        "xx"
    );
    assert_eq!(
        preference_key(&Some(TrackPreference::Language("de".into()))),
        "ger"
    );
    assert_eq!(picker_title(0), "Preferred audio language");
    assert_eq!(secret_key(Setting::Sonarr), "sonarr-api-key");
    assert_eq!(backend_host(Setting::Theme, &Config::default()), None);
    let editor = BackendEditor::from_config(Setting::Radarr, &Config::default());
    assert_eq!(editor.form.text(SECRET), "");
}
