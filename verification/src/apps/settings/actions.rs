//! What the settings tab is for: which setting each of its keys changes, and
//! what a server is asked for and remembered by.

use vstd::prelude::*;

use crate::app::{KeyCode, KeyEvent};
use crate::apps::settings::backend::{BackendModel, ConnectModel, Connection, SaveModel};
use crate::apps::settings::{Editing, EditorModel, Setting, SettingsCall, SettingsModel};
use crate::config::{ConfigModel, JellyfinModel, TrackModel};
use crate::lang::LANGUAGES;
use crate::net::problem;
use crate::secrets::{JELLYFIN_PASSWORD, JELLYFIN_TOKEN, RADARR_API_KEY, SONARR_API_KEY};
use crate::ui::form::field_at;
use crate::ui::picker::PickerModel;
use crate::ui::theme::{Theme, ACCENTS, THEMES};

verus! {

/// Enter on a row opens the editor of the setting in that row: the choice of a
/// theme or an accent on the current one, the Jellyfin menu, or the form of a
/// server on its current host. The accent has a row only where the theme offers
/// accents.
pub proof fn law_each_row_opens_its_own_setting(
    screen: SettingsModel,
    key: KeyEvent,
    config: ConfigModel,
)
    requires
        screen.editor is Closed,
        key.code == KeyCode::Enter,
    ensures
        ({
            let (t, c) = screen.after_key(key, config);
            let accents = config.theme == Theme::Latte;
            let row = screen.cursor as int + if accents {
                0int
            } else {
                1int
            };
            &&& c == config
            &&& t.outbox == screen.outbox
            &&& t.cursor == screen.cursor
            &&& screen.cursor == 0 ==> (t.editor matches EditorModel::Choice(editing)
                && editing.setting == Setting::Theme && THEMES@[editing.cursor as int]
                == config.theme)
            &&& accents && screen.cursor == 1 ==> (t.editor matches EditorModel::Choice(editing)
                && editing.setting == Setting::Accent && ACCENTS@[editing.cursor as int]
                == config.accent)
            &&& screen.cursor > 0 && row == 2 ==> t.editor == (EditorModel::JellyfinMenu {
                cursor: 0,
            })
            &&& screen.cursor > 0 && row == 3 ==> t.editor == EditorModel::Backend(
                BackendModel::opened(Setting::Radarr, config),
            )
            &&& screen.cursor > 0 && row == 4 ==> t.editor == EditorModel::Backend(
                BackendModel::opened(Setting::Sonarr, config),
            )
            &&& row >= 5 ==> t.editor is Closed
        }),
{
    assert(THEMES@[0] == Theme::Latte && THEMES@[1] == Theme::SolarizedLight);
    assert(ACCENTS@.len() == 14);
}

/// The choice under the cursor is the one that is set and written, and nothing
/// else of the settings changes; leaving the list sets nothing.
pub proof fn law_the_highlighted_choice_is_set(
    screen: SettingsModel,
    editing: Editing,
    key: KeyEvent,
    config: ConfigModel,
)
    requires
        screen.editor == EditorModel::Choice(editing),
        editing.setting == Setting::Theme && editing.cursor < 2 || editing.setting
            == Setting::Accent && editing.cursor < 14 && config.theme == Theme::Latte,
    ensures
        key.code == KeyCode::Enter ==> {
            let (t, c) = screen.after_key(key, config);
            &&& t.editor is Closed
            &&& t.outbox == screen.outbox.push(SettingsCall::SaveConfig)
            &&& editing.setting == Setting::Theme ==> c == (ConfigModel {
                theme: THEMES@[editing.cursor as int],
                ..config
            })
            &&& editing.setting == Setting::Accent ==> c == (ConfigModel {
                accent: ACCENTS@[editing.cursor as int],
                ..config
            })
        },
        key.code == KeyCode::Esc ==> screen.after_key(key, config).0.editor is Closed
            && screen.after_key(key, config).1 == config && screen.after_key(key, config).0.outbox
            == screen.outbox,
        key.code == KeyCode::Down && editing.setting == Setting::Theme && editing.cursor == 0
            ==> screen.after_key(key, config).0.editor == EditorModel::Choice(
            Editing { cursor: 1, ..editing },
        ),
        key.code == KeyCode::Up && editing.setting == Setting::Theme && editing.cursor == 1
            ==> screen.after_key(key, config).0.editor == EditorModel::Choice(
            Editing { cursor: 0, ..editing },
        ),
{
    assert(ACCENTS@.len() == 14);
    assert(THEMES@.len() == 2);
}

/// The Jellyfin menu leads to the server's form and to the languages.
pub proof fn law_the_jellyfin_menu_leads_on(
    screen: SettingsModel,
    cursor: usize,
    key: KeyEvent,
    config: ConfigModel,
)
    requires
        screen.editor == (EditorModel::JellyfinMenu { cursor }),
        cursor < 2,
    ensures
        key.code == KeyCode::Enter ==> screen.after_key(key, config).0.editor == if cursor == 0 {
            EditorModel::Backend(BackendModel::opened(Setting::Jellyfin, config))
        } else {
            EditorModel::Language { cursor: 0, picker: None }
        },
        key.code == KeyCode::Up || key.code == KeyCode::Down ==> screen.after_key(
            key,
            config,
        ).0.editor == (EditorModel::JellyfinMenu { cursor: (1 - cursor) as usize }),
        key.code == KeyCode::Esc ==> screen.after_key(key, config).0.editor is Closed,
        screen.after_key(key, config).1 == config,
        screen.after_key(key, config).0.outbox == screen.outbox,
{
}

/// What stands for a choice in the list of languages.
pub open spec fn stands_for(key: Seq<char>, choice: Option<TrackModel>) -> bool {
    match choice {
        None => key == "unset"@,
        Some(TrackModel::Default) => key == "default"@,
        Some(TrackModel::Off) => key == "off"@,
        Some(TrackModel::Language(code)) => code == key && key != "unset"@ && key != "default"@
            && key != "off"@,
    }
}

/// The entry under the cursor is what is set: on the first row for the sound,
/// on the second for the subtitles, and never for both. It is written, and
/// nothing else of the settings changes.
pub proof fn law_the_highlighted_language_is_set(
    screen: SettingsModel,
    row: usize,
    picker: PickerModel,
    key: KeyEvent,
    config: ConfigModel,
)
    requires
        screen.editor == (EditorModel::Language { cursor: row, picker: Some(picker) }),
        picker.cursor < picker.rows().len(),
        row < 2,
    ensures
        key.code == KeyCode::Enter ==> {
            let (t, c) = screen.after_key(key, config);
            let chosen = picker.rows()[picker.cursor as int].0;
            &&& t.editor == (EditorModel::Language { cursor: row, picker: None })
            &&& t.outbox == screen.outbox.push(SettingsCall::SaveConfig)
            &&& row == 0 ==> stands_for(chosen, c.jellyfin.audio_language) && c == (ConfigModel {
                jellyfin: JellyfinModel {
                    audio_language: c.jellyfin.audio_language,
                    ..config.jellyfin
                },
                ..config
            })
            &&& row == 1 ==> stands_for(chosen, c.jellyfin.subtitle_language) && c == (
            ConfigModel {
                jellyfin: JellyfinModel {
                    subtitle_language: c.jellyfin.subtitle_language,
                    ..config.jellyfin
                },
                ..config
            })
        },
        key.code == KeyCode::Esc ==> screen.after_key(key, config).1 == config
            && screen.after_key(key, config).0.outbox == screen.outbox,
{
}

/// Opening a row of the language page offers every language, behind the two
/// entries that are none: no preference, and the default track for the sound or
/// none at all for the subtitles.
pub proof fn law_every_language_is_offered(
    screen: SettingsModel,
    row: usize,
    at: int,
    key: KeyEvent,
    config: ConfigModel,
)
    requires
        screen.editor == (EditorModel::Language { cursor: row, picker: None }),
        row < 2,
        key.code == KeyCode::Enter,
        0 <= at < LANGUAGES@.len(),
    ensures
        ({
            let t = screen.after_key(key, config).0;
            &&& t.editor matches EditorModel::Language { cursor, picker: Some(picker) }
            &&& cursor == row
            &&& picker.pinned.len() == 2
            &&& picker.pinned[0] == ("unset"@, "No preference"@)
            &&& picker.pinned[1] == if row == 0 {
                ("default"@, "Default track"@)
            } else {
                ("off"@, "None (off)"@)
            }
            &&& picker.items.len() == LANGUAGES@.len()
            &&& picker.items[at].0 == LANGUAGES@[at].0@
            &&& picker.items[at].1 == LANGUAGES@[at].3@ + " ("@ + LANGUAGES@[at].0@ + ")"@
            &&& picker.filter.value.len() == 0
        }),
{
}

// Servers.

/// A server's form asks for its host, for Jellyfin for the user, and for its
/// secret, each starting from what is set and the secret from nothing; what it
/// would send is what its rows hold.
pub proof fn law_server_forms_ask_for_credentials(backend: Setting, config: ConfigModel)
    requires
        backend == Setting::Jellyfin || backend == Setting::Radarr || backend == Setting::Sonarr,
    ensures
        ({
            let editor = BackendModel::opened(backend, config);
            let f = editor.form.fields;
            let last = f.len() - 1;
            &&& editor.backend == backend
            &&& f.len() == if backend == Setting::Jellyfin {
                3nat
            } else {
                2nat
            }
            &&& f[0].label == "Host"
            &&& f[0].input.value == if backend == Setting::Jellyfin {
                config.jellyfin.host
            } else if backend == Setting::Radarr {
                config.radarr_host
            } else {
                config.sonarr_host
            }
            &&& backend == Setting::Jellyfin ==> f[1].label == "Username" && f[1].input.value
                == config.jellyfin.username && f[2].label == "Password"
            &&& backend != Setting::Jellyfin ==> f[1].label == "API key"
            &&& f[last].input.value.len() == 0
            &&& f[last].input.masked
        }),
{
}

/// Saving a server's form connects with what its rows hold, under a generation
/// of its own; an incomplete one is not sent.
pub proof fn law_saving_connects_with_what_was_typed(
    screen: SettingsModel,
    editor: BackendModel,
    key: KeyEvent,
    config: ConfigModel,
)
    requires
        screen.editor == EditorModel::Backend(editor),
        !editor.busy,
        editor.form.focus == editor.form.fields.len(),
        key.code == KeyCode::Enter,
        editor.backend == Setting::Jellyfin || editor.backend == Setting::Radarr || editor.backend
            == Setting::Sonarr,
        editor.form.fields.len() == if editor.backend == Setting::Jellyfin {
            3nat
        } else {
            2nat
        },
        editor.form.fields[0].id == 0,
        editor.backend == Setting::Jellyfin ==> editor.form.fields[1].id == 1
            && editor.form.fields[2].id == 2,
        editor.backend != Setting::Jellyfin ==> editor.form.fields[1].id == 2,
    ensures
        ({
            let (t, c) = screen.after_key(key, config);
            let f = editor.form.fields;
            let host = f[0].input.value;
            let complete = host.len() > 0 && problem(host) is None && (editor.backend
                == Setting::Jellyfin ==> f[1].input.value.len() > 0);
            &&& c == config
            &&& !complete ==> t.outbox == screen.outbox && (t.editor matches EditorModel::Backend(
                after,
            ) && after.error is Some && !after.busy)
            &&& complete ==> {
                &&& t.outbox.len() == screen.outbox.len() + 1
                &&& t.outbox.last() matches SettingsCall::Connect { save_gen, request }
                &&& save_gen == t.save_gen
                &&& save_gen != screen.save_gen
                &&& request.backend == editor.backend
                &&& request.host == host
                &&& request.username == if editor.backend == Setting::Jellyfin {
                    Some(f[1].input.value)
                } else {
                    None
                }
                &&& request.typed_secret == f[f.len() - 1].input.value
                &&& request.device == config.jellyfin.device
                &&& request.device_id == config.jellyfin.device_id
                &&& t.editor matches EditorModel::Backend(after)
                &&& after.busy
            }
        }),
{
    reveal_with_fuel(field_at, 4);
}

/// The form of a server is answered for that server: with its host and with the
/// secret that was typed, as a password for Jellyfin and as a key for the
/// others.
pub proof fn law_each_server_is_asked_with_its_own_credentials(save: SaveModel)
    ensures
        save.backend == Setting::Jellyfin ==> save.connect() == Some(
            ConnectModel::Jellyfin {
                host: save.host,
                username: match save.username {
                    Some(username) => username,
                    None => Seq::empty(),
                },
                password: save.typed_secret,
                device: save.device,
                device_id: save.device_id,
            },
        ),
        save.backend == Setting::Radarr ==> save.connect() == Some(
            ConnectModel::Radarr { host: save.host, api_key: save.typed_secret },
        ),
        save.backend == Setting::Sonarr ==> save.connect() == Some(
            ConnectModel::Sonarr { host: save.host, api_key: save.typed_secret },
        ),
        save.backend == Setting::Theme || save.backend == Setting::Accent ==> save.connect()
            is None,
{
}

/// A server that was reached is remembered under its own name: its host (and
/// for Jellyfin its user) in the settings, its secret and for Jellyfin its
/// token in the keyring, an empty secret not at all. The other servers stay as
/// they are.
pub proof fn law_each_server_is_remembered_by_itself(
    save: SaveModel,
    config: ConfigModel,
    reached: Connection,
)
    ensures
        ({
            let c = save.applied(config, reached);
            let secrets = save.secrets(reached);
            &&& c.theme == config.theme
            &&& c.accent == config.accent
            &&& c.last_app == config.last_app
            &&& save.backend == Setting::Radarr ==> {
                &&& c.radarr_host == reached.host@
                &&& c.sonarr_host == config.sonarr_host
                &&& c.jellyfin == config.jellyfin
                &&& save.typed_secret.len() > 0 ==> secrets == seq![
                    (RADARR_API_KEY, save.typed_secret),
                ]
                &&& save.typed_secret.len() == 0 ==> secrets.len() == 0
            }
            &&& save.backend == Setting::Sonarr ==> {
                &&& c.sonarr_host == reached.host@
                &&& c.radarr_host == config.radarr_host
                &&& c.jellyfin == config.jellyfin
                &&& save.typed_secret.len() > 0 ==> secrets == seq![
                    (SONARR_API_KEY, save.typed_secret),
                ]
                &&& save.typed_secret.len() == 0 ==> secrets.len() == 0
            }
            &&& save.backend == Setting::Jellyfin ==> {
                &&& c.jellyfin.host == save.host
                &&& save.username is Some ==> c.jellyfin.username == save.username->0
                &&& c.jellyfin.user_id == reached.user_id@
                &&& c.jellyfin.device == config.jellyfin.device
                &&& c.jellyfin.device_id == config.jellyfin.device_id
                &&& c.jellyfin.audio_language == config.jellyfin.audio_language
                &&& c.radarr_host == config.radarr_host
                &&& c.sonarr_host == config.sonarr_host
                &&& secrets[0] == (JELLYFIN_TOKEN, reached.token@)
                &&& save.typed_secret.len() > 0 ==> secrets == seq![
                    (JELLYFIN_TOKEN, reached.token@),
                    (JELLYFIN_PASSWORD, save.typed_secret),
                ]
                &&& save.typed_secret.len() == 0 ==> secrets.len() == 1
            }
        }),
        JELLYFIN_TOKEN != JELLYFIN_PASSWORD,
        JELLYFIN_TOKEN != RADARR_API_KEY,
        JELLYFIN_TOKEN != SONARR_API_KEY,
        JELLYFIN_PASSWORD != RADARR_API_KEY,
        JELLYFIN_PASSWORD != SONARR_API_KEY,
        RADARR_API_KEY != SONARR_API_KEY,
{
    let secrets = save.secrets(reached);
    if save.backend == Setting::Jellyfin && save.typed_secret.len() > 0 {
        assert(secrets =~= seq![
            (JELLYFIN_TOKEN, reached.token@),
            (JELLYFIN_PASSWORD, save.typed_secret),
        ]);
    }
    if save.backend == Setting::Radarr && save.typed_secret.len() > 0 {
        assert(secrets =~= seq![(RADARR_API_KEY, save.typed_secret)]);
    }
    if save.backend == Setting::Sonarr && save.typed_secret.len() > 0 {
        assert(secrets =~= seq![(SONARR_API_KEY, save.typed_secret)]);
    }
    lemma_secret_names_differ();
}

proof fn lemma_secret_names_differ()
    ensures
        JELLYFIN_TOKEN != JELLYFIN_PASSWORD,
        JELLYFIN_TOKEN != RADARR_API_KEY,
        JELLYFIN_TOKEN != SONARR_API_KEY,
        JELLYFIN_PASSWORD != RADARR_API_KEY,
        JELLYFIN_PASSWORD != SONARR_API_KEY,
        RADARR_API_KEY != SONARR_API_KEY,
{
}

/// A save that succeeded closes its form, and one of Jellyfin makes a live
/// session reconnect; one that failed stays open and says why.
pub proof fn law_saves_close_their_form_or_say_why(
    screen: SettingsModel,
    editor: BackendModel,
    why: Seq<char>,
    config: ConfigModel,
)
    requires
        screen.editor == EditorModel::Backend(editor),
    ensures
        ({
            let t = screen.after_save(screen.save_gen, Ok(()), config);
            &&& t.outbox == screen.outbox
            &&& editor.backend == Setting::Jellyfin ==> t.editor == (EditorModel::JellyfinMenu {
                cursor: 0,
            }) && t.reauth != screen.reauth
            &&& editor.backend != Setting::Jellyfin ==> t.editor is Closed && t.reauth
                == screen.reauth
        }),
        ({
            let t = screen.after_save(screen.save_gen, Err(why), config);
            &&& t.editor matches EditorModel::Backend(after)
            &&& after.error == Some(why)
            &&& !after.busy
            &&& after.form == editor.form
            &&& after.backend == editor.backend
            &&& t.reauth == screen.reauth
            &&& t.outbox == screen.outbox
        }),
{
}

} // verus!
