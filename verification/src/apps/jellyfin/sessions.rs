//! What the Jellyfin app plays and how it logs in: what is handed to the player
//! and to the server, and what is kept of their answers.

use std::sync::Arc;
use vstd::prelude::*;

use crate::app::{KeyCode, KeyEvent};
use crate::apps::jellyfin::browse::BrowseAction;
use crate::apps::jellyfin::login::LoginModel;
use crate::apps::jellyfin::playback::{NowModel, PlayerModel, Session, TrackKind};
use crate::apps::jellyfin::state::BrowseModel;
use crate::apps::jellyfin::{AppCall, AppModel, Msg, ScreenModel};
use crate::config::{ConfigModel, JellyfinModel, PrefsModel, TrackModel};
use crate::jellyfin::{title_text, Error, ItemKind, MediaItem};
use crate::ui::form::field_at;

verus! {

// Playback.

/// Under what a track choice for an item is kept: for all episodes of a series
/// under the series, for anything else under the item.
pub open spec fn kept_under(item: MediaItem) -> Seq<char> {
    match item.series_id {
        Some(series) => if item.kind == ItemKind::Episode {
            series@
        } else {
            item.id@
        },
        None => item.id@,
    }
}

/// Playing an item hands exactly that item to a new player, with the segments
/// to skip and, for the sound and for the subtitles each, what was last chosen
/// for it or else what is set for all.
pub proof fn law_the_item_is_handed_to_the_player(
    app: AppModel,
    item: Arc<MediaItem>,
    config: JellyfinModel,
)
    requires
        app.screen is Browse,
    ensures
        ({
            let t = app.playing(item, config);
            let key = kept_under(*item);
            let known = app.overrides.dom().contains(key);
            &&& t.outbox.len() == app.outbox.len() + 1
            &&& t.outbox.drop_last() == app.outbox
            &&& t.outbox.last() matches AppCall::Play {
                player_gen,
                item: played,
                skip_segments,
                prefs,
            }
            &&& played == item
            &&& player_gen == t.player_gen
            &&& player_gen != app.player_gen
            &&& skip_segments == config.skip_segments
            &&& prefs.audio == if known && app.overrides[key].audio is Some {
                app.overrides[key].audio
            } else {
                config.audio_language
            }
            &&& prefs.subtitles == if known && app.overrides[key].subtitles is Some {
                app.overrides[key].subtitles
            } else {
                config.subtitle_language
            }
            &&& t.player is Some
            &&& t.player->0.title == title_text(*item)
            &&& t.player->0.position == 0
            &&& t.player->0.duration is None
            &&& t.screen == app.screen
            &&& t.overrides == app.overrides
        }),
{
    assert(app.playing(item, config).outbox.drop_last() =~= app.outbox);
}

/// What the browse screen hands over to be played is played at once where
/// nothing plays, and waits for an answer where something does: then nothing is
/// started or stopped.
pub proof fn law_handed_over_items_play_or_wait(
    app: AppModel,
    browse: BrowseModel,
    key: KeyEvent,
    item: Arc<MediaItem>,
    config: JellyfinModel,
)
    requires
        app.screen == ScreenModel::Browse(browse),
        app.pending_play is None,
        browse.key_action(key) == Some(BrowseAction::Play(item)),
    ensures
        ({
            let t = app.after_key(key, config);
            &&& app.player is Some ==> {
                &&& t.pending_play == Some(item)
                &&& t.outbox == app.outbox
                &&& t.player == app.player
            }
            &&& app.player is None ==> {
                &&& t.pending_play is None
                &&& t.outbox.len() == app.outbox.len() + 1
                &&& t.outbox.last() matches AppCall::Play { item: played, .. }
                &&& played == item
                &&& t.player is Some
                &&& t.player->0.title == title_text(*item)
            }
        }),
{
}

/// Declining to replace what plays drops what waited and changes nothing else;
/// agreeing stops the old player and plays what waited.
pub proof fn law_replacing_is_asked_for(app: AppModel, key: KeyEvent, config: JellyfinModel)
    requires
        app.pending_play is Some,
        app.player is Some,
        app.screen is Browse,
        !key.is_modified_char(),
    ensures
        key.code == KeyCode::Char('n') || key.code == KeyCode::Char('N') ==> app.after_key(
            key,
            config,
        ) == (AppModel { pending_play: None, ..app }),
        key.code == KeyCode::Char('y') || key.code == KeyCode::Char('Y') ==> {
            let t = app.after_key(key, config);
            &&& t.pending_play is None
            &&& t.outbox.len() == app.outbox.len() + 2
            &&& t.outbox[app.outbox.len() as int] == (AppCall::StopPlayer {
                player_gen: app.player_gen,
            })
            &&& t.outbox.last() matches AppCall::Play { item, .. }
            &&& item == app.pending_play->0
        },
        key.code == KeyCode::Enter || key.code == KeyCode::Esc ==> app.after_key(key, config)
            == app,
{
}

/// Stopping tells the current player to stop, once, and keeps it until it has
/// gone; what waited to replace it is dropped. Without a player nothing is told.
pub proof fn law_stopping_tells_the_player(app: AppModel)
    ensures
        app.player is Some ==> app.stopped().outbox == app.outbox.push(
            AppCall::StopPlayer { player_gen: app.player_gen },
        ),
        app.player is None ==> app.stopped().outbox == app.outbox,
        app.stopped().player == app.player,
        app.stopped().pending_play is None,
        app.stopped().player_gen == app.player_gen,
        app.stopped().screen == app.screen,
{
}

/// What the current player reports is what is shown: how far it is, how long it
/// takes, that something else has started, and that it has ended.
pub proof fn law_reports_are_shown(
    app: AppModel,
    now: NowModel,
    secs: u64,
    title: Seq<char>,
    config: ConfigModel,
)
    requires
        app.player == Some(now),
    ensures
        app.reported(PlayerModel::Position { secs }, config).0.player == Some(
            NowModel { title: now.title, position: secs, duration: now.duration },
        ),
        app.reported(PlayerModel::Duration { secs }, config).0.player == Some(
            NowModel { title: now.title, position: now.position, duration: Some(secs) },
        ),
        app.reported(PlayerModel::Started { title }, config).0.player == Some(
            NowModel { title, position: 0, duration: None },
        ),
        app.reported(PlayerModel::Exited, config).0.player is None,
        app.reported(PlayerModel::Position { secs }, config).0.outbox == app.outbox,
        app.reported(PlayerModel::Position { secs }, config).1 == config,
        app.reported(PlayerModel::Exited, config).0.overrides == app.overrides,
        app.screen matches ScreenModel::Browse(browse) ==> app.reported(
            PlayerModel::Failed(title),
            config,
        ).0.screen matches ScreenModel::Browse(after) && after.status.error == Some(title)
            && after.lists == browse.lists,
{
}

/// When a player has ended, the list on screen is asked for anew, so that it
/// shows what was watched.
pub proof fn law_the_list_is_fetched_after_playback(
    app: AppModel,
    browse: BrowseModel,
    config: ConfigModel,
)
    requires
        app.screen == ScreenModel::Browse(browse),
    ensures
        ({
            let t = app.reported(PlayerModel::Exited, config).0;
            &&& t.screen matches ScreenModel::Browse(after)
            &&& after.outbox.len() == browse.outbox.len() + 1
            &&& after.lists == browse.lists
            &&& after.place == browse.place
            &&& after.status.error == browse.status.error
            &&& t.outbox == app.outbox
        }),
{
}

/// A track switch is kept for what it was made on, for the sound or for the
/// subtitles alone; everything else that is kept stays, and the file is
/// written.
pub proof fn law_track_switches_are_kept(
    app: AppModel,
    key: Seq<char>,
    other: Seq<char>,
    kind: TrackKind,
    selection: TrackModel,
    config: ConfigModel,
)
    ensures
        ({
            let event = PlayerModel::TrackSwitched { override_key: key, kind, selection };
            let t = app.reported(event, config).0;
            let known = app.overrides.dom().contains(key);
            let before = if known {
                app.overrides[key]
            } else {
                PrefsModel { audio: None, subtitles: None }
            };
            &&& t.overrides.dom().contains(key)
            &&& t.overrides[key].audio == if kind == TrackKind::Audio {
                Some(selection)
            } else {
                before.audio
            }
            &&& t.overrides[key].subtitles == if kind == TrackKind::Subtitle {
                Some(selection)
            } else {
                before.subtitles
            }
            &&& other != key ==> t.overrides.dom().contains(other)
                == app.overrides.dom().contains(other)
            &&& other != key && app.overrides.dom().contains(other) ==> t.overrides[other]
                == app.overrides[other]
            &&& t.outbox == app.outbox.push(AppCall::SaveOverrides)
            &&& t.player == app.player
        }),
{
}

// Logging in.

/// The form on screen asks for the host, the user and the password, and starts
/// from what is set, without a password.
pub proof fn law_the_login_form_starts_from_the_settings(host: Seq<char>, username: Seq<char>)
    ensures
        ({
            let form = LoginModel::opened(host, username);
            let fields = form.form.fields;
            &&& fields.len() == 3
            &&& fields[0].label == "Host" && fields[0].input.value == host
            &&& fields[1].label == "Username" && fields[1].input.value == username
            &&& fields[2].label == "Password" && fields[2].input.value.len() == 0
            &&& fields[2].input.masked
            &&& form.host() == fields[0].input.value
            &&& form.username() == fields[1].input.value
            &&& form.password() == fields[2].input.value
            &&& form.error is None
            &&& !form.busy
        }),
{
    reveal_with_fuel(field_at, 4);
}

/// Submitting the form logs in with what was typed, under a generation of its
/// own, with the device that is set and none of the stored secrets.
pub proof fn law_submitting_logs_in_with_what_was_typed(
    app: AppModel,
    form: LoginModel,
    key: KeyEvent,
    config: JellyfinModel,
)
    requires
        app.screen == ScreenModel::Login(form),
        app.pending_play is None,
        form.form.focus == form.form.fields.len(),
        key.code == KeyCode::Enter,
        !form.busy,
    ensures
        ({
            let t = app.after_key(key, config);
            &&& form.invalid() is Some ==> t.outbox == app.outbox && t.auth_gen == app.auth_gen
                && t.screen is Login && t.screen->Login_0.error == form.invalid()
                && !t.screen->Login_0.busy
            &&& form.invalid() is None ==> {
                &&& t.outbox.len() == app.outbox.len() + 1
                &&& t.outbox.last() matches AppCall::Connect {
                    auth_gen,
                    credentials,
                    stored_secrets,
                }
                &&& auth_gen == t.auth_gen
                &&& auth_gen != app.auth_gen
                &&& !stored_secrets
                &&& credentials.host == form.host()
                &&& credentials.username == form.username()
                &&& credentials.password == form.password()
                &&& credentials.device == config.device
                &&& credentials.device_id == config.device_id
                &&& credentials.token.len() == 0
                &&& credentials.user_id.len() == 0
                &&& t.screen matches ScreenModel::Login(after)
                &&& after.busy
                &&& after.error is None
            }
        }),
{
}

/// Bringing the app to the front logs in with what is stored where a host and a
/// user are set, and asks for them where they are not.
pub proof fn law_the_app_logs_in_with_what_is_stored(
    app: AppModel,
    reauth: u64,
    config: JellyfinModel,
)
    requires
        app.screen is Boot,
    ensures
        ({
            let t = app.activated(reauth, config);
            if config.host.len() > 0 && config.username.len() > 0 {
                &&& t.screen is Connecting
                &&& t.outbox.len() == app.outbox.len() + 1
                &&& t.outbox.last() matches AppCall::Connect {
                    auth_gen,
                    credentials,
                    stored_secrets,
                }
                &&& auth_gen == t.auth_gen
                &&& stored_secrets
                &&& credentials.host == config.host
                &&& credentials.username == config.username
                &&& credentials.device == config.device
                &&& credentials.device_id == config.device_id
                &&& credentials.user_id == config.user_id
            } else {
                &&& t.outbox == app.outbox
                &&& t.screen == ScreenModel::Login(
                    LoginModel::opened(config.host, config.username),
                )
            }
        }),
{
}

/// A login that succeeded is kept: the settings get the session's user and what
/// was typed on the form, the token is stored, with the typed password where
/// there was a form, and the browse screen opens on its first list.
pub proof fn law_a_login_is_kept(app: AppModel, session: Session, config: ConfigModel)
    ensures
        ({
            let (t, after) = app.after_event(
                Msg::AuthDone { auth_gen: app.auth_gen, result: Ok(session) },
                config,
            );
            let n = app.outbox.len() as int;
            &&& t.screen is Browse
            &&& t.screen->Browse_0.outbox.len() == 1
            &&& t.outbox.len() == n + 2
            &&& t.outbox[n] is SaveConfig
            &&& t.outbox[n + 1] matches AppCall::StoreSession { token, password }
            &&& token == session.token@
            &&& after.jellyfin.user_id == session.user_id@
            &&& after.jellyfin.device == config.jellyfin.device
            &&& after.jellyfin.device_id == config.jellyfin.device_id
            &&& after.jellyfin.skip_segments == config.jellyfin.skip_segments
            &&& after.jellyfin.audio_language == config.jellyfin.audio_language
            &&& after.jellyfin.subtitle_language == config.jellyfin.subtitle_language
            &&& after.sonarr_host == config.sonarr_host
            &&& after.radarr_host == config.radarr_host
            &&& after.theme == config.theme
            &&& after.accent == config.accent
            &&& match app.screen {
                ScreenModel::Login(form) => {
                    &&& password == Some(form.password())
                    &&& after.jellyfin.host == form.host()
                    &&& after.jellyfin.username == form.username()
                },
                _ => {
                    &&& password is None
                    &&& after.jellyfin.host == config.jellyfin.host
                    &&& after.jellyfin.username == config.jellyfin.username
                },
            }
        }),
{
}

/// A login that failed says why on the form, which keeps what was typed, and
/// changes no settings.
pub proof fn law_a_failed_login_is_told(app: AppModel, err: Error, config: ConfigModel)
    ensures
        ({
            let (t, after) = app.after_event(
                Msg::AuthDone { auth_gen: app.auth_gen, result: Err(err) },
                config,
            );
            &&& after == config
            &&& t.outbox == app.outbox
            &&& t.screen matches ScreenModel::Login(form)
            &&& form.error == Some(err.text())
            &&& !form.busy
            &&& match app.screen {
                ScreenModel::Login(before) => form.form == before.form,
                _ => form.form == LoginModel::opened(
                    config.jellyfin.host,
                    config.jellyfin.username,
                ).form,
            }
        }),
{
}

/// A session that is over is left: what plays is stopped, the settings lose
/// their user, the token goes, and the login form says why, on the host and
/// user that are set.
pub proof fn law_an_expired_session_is_left(app: AppModel, config: ConfigModel)
    ensures
        ({
            let t = app.expired(config.jellyfin);
            &&& t.player is None
            &&& t.pending_play is None
            &&& t.screen matches ScreenModel::Login(form)
            &&& form.error == Some("session expired, please log in again"@)
            &&& form.form == LoginModel::opened(
                config.jellyfin.host,
                config.jellyfin.username,
            ).form
            &&& app.player is Some ==> t.outbox == app.outbox.push(
                AppCall::StopPlayer { player_gen: app.player_gen },
            ).push(AppCall::SaveConfig).push(AppCall::DeleteToken)
            &&& app.player is None ==> t.outbox == app.outbox.push(AppCall::SaveConfig).push(
                AppCall::DeleteToken,
            )
            &&& AppModel::without_session(config).jellyfin.host == config.jellyfin.host
            &&& AppModel::without_session(config).jellyfin.username == config.jellyfin.username
            &&& AppModel::without_session(config).jellyfin.user_id.len() == 0
            &&& AppModel::without_session(config).theme == config.theme
        }),
{
}

/// Any answer that says the session is over ends it, and no other answer does.
pub proof fn law_only_a_rejected_session_is_left(
    app: AppModel,
    browse: BrowseModel,
    result: Result<(), Error>,
    gen: u64,
    config: ConfigModel,
)
    requires
        app.screen == ScreenModel::Browse(browse),
    ensures
        ({
            let (t, after) = app.after_event(
                Msg::WatchedToggled { fetch_gen: gen, result },
                config,
            );
            if result matches Err(err) && err is Unauthorized {
                t.screen is Login && after.jellyfin.user_id.len() == 0
            } else {
                t.screen is Browse && after == config
            }
        }),
{
}

} // verus!
