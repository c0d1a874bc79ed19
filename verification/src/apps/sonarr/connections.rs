//! How the Sonarr app connects: what it is handed to the server with, and what
//! is kept of the answer.

use vstd::prelude::*;

use crate::app::{KeyCode, KeyEvent};
use crate::apps::sonarr::setup::SetupModel;
use crate::apps::sonarr::state::BrowseModel;
use crate::apps::sonarr::{AppCall, Msg, SonarrModel, ScreenModel};
use crate::arr::models::QueueItem;
use crate::arr::Error;
use crate::config::ConfigModel;
use crate::net::problem;

verus! {

/// The setup form asks for the host, which starts as it is set, and for the
/// key, which starts empty and is never shown.
pub proof fn law_the_setup_form_asks_for_host_and_key(host: Seq<char>)
    ensures
        ({
            let form = SetupModel::opened(host);
            &&& form.host.value == host && !form.host.masked
            &&& form.api_key.value.len() == 0 && form.api_key.masked
            &&& form.focus == 0
            &&& form.error is None
            &&& !form.busy
        }),
{
}

/// What is typed goes to the focused row, and the other row stays.
pub proof fn law_typing_fills_the_focused_row(form: SetupModel, key: KeyEvent, c: char)
    requires
        form.wf(),
        !form.busy,
        key.code == KeyCode::Char(c),
        !key.modifiers.control && !key.modifiers.alt && !key.modifiers.other,
    ensures
        ({
            let t = form.after_key(key);
            &&& t.focus == form.focus
            &&& form.focus == 0 ==> t.host.value == form.host.value.push(c) && t.api_key
                == form.api_key
            &&& form.focus == 1 ==> t.api_key.value == form.api_key.value.push(c) && t.host
                == form.host
        }),
{
}

/// Bringing the app to the front connects to the host that is set, with the key
/// that is stored, and asks for a host where none is set.
pub proof fn law_the_app_connects_to_the_set_host(app: SonarrModel, config: ConfigModel)
    requires
        app.screen is Boot,
    ensures
        ({
            let t = app.activated(config);
            if config.sonarr_host.len() > 0 {
                &&& t.screen is Connecting
                &&& t.auth_gen != app.auth_gen
                &&& t.outbox == app.outbox.push(
                    AppCall::Connect {
                        auth_gen: t.auth_gen,
                        host: config.sonarr_host,
                        api_key: None,
                    },
                )
            } else {
                &&& t.screen == ScreenModel::Setup(SetupModel::opened(config.sonarr_host))
                &&& t.outbox == app.outbox
            }
        }),
{
}

/// Enter on the key's row connects with the host and the key in the rows; an
/// incomplete form is not sent, and the other row comes next.
pub proof fn law_submitting_connects_with_what_was_typed(
    app: SonarrModel,
    form: SetupModel,
    key: KeyEvent,
    config: ConfigModel,
)
    requires
        app.screen == ScreenModel::Setup(form),
        form.wf(),
        !form.busy,
        key.code == KeyCode::Enter,
    ensures
        ({
            let t = app.after_key(key, config);
            let host = form.host.value;
            let api_key = form.api_key.value;
            let complete = host.len() > 0 && problem(host) is None && api_key.len() > 0;
            &&& t.screen is Setup
            &&& t.screen->Setup_0.host.value == host
            &&& t.screen->Setup_0.api_key.value == api_key
            &&& !complete || form.focus == 0 ==> t.outbox == app.outbox && t.auth_gen
                == app.auth_gen && !t.screen->Setup_0.busy && t.screen->Setup_0.focus == 1
                - form.focus
            &&& complete && form.focus == 1 ==> t.auth_gen != app.auth_gen
                && t.screen->Setup_0.busy && t.outbox == app.outbox.push(
                AppCall::Connect { auth_gen: t.auth_gen, host, api_key: Some(api_key) },
            )
        }),
{
}

/// A connect that succeeded is kept: the host that answered in the settings,
/// the typed key in the keyring where there was a form; the other settings stay
/// and the browse screen opens on its lists.
pub proof fn law_a_connection_is_kept(app: SonarrModel, host: Seq<char>, config: ConfigModel)
    ensures
        ({
            let (t, c) = app.connected(Ok(host), config);
            &&& c == (ConfigModel { sonarr_host: host, ..config })
            &&& t.screen is Browse
            &&& t.screen->Browse_0.outbox.len() >= 1
            &&& t.auth_gen == app.auth_gen
            &&& match app.screen {
                ScreenModel::Setup(form) => t.outbox == app.outbox.push(AppCall::SaveConfig).push(
                    AppCall::StoreKey(form.api_key.value),
                ),
                _ => t.outbox == app.outbox.push(AppCall::SaveConfig),
            }
        }),
{
}

/// A connect that failed says why on the form, which keeps what was typed, and
/// changes no settings; without a stored key the form just opens.
pub proof fn law_a_failed_connect_is_told(app: SonarrModel, err: Error, config: ConfigModel)
    ensures
        ({
            let (t, c) = app.connected(Err(err), config);
            &&& c == config
            &&& t.outbox == app.outbox
            &&& t.screen is Setup
            &&& !(err is MissingApiKey) ==> t.screen->Setup_0.error == Some(err.text())
                && !t.screen->Setup_0.busy && match app.screen {
                ScreenModel::Setup(form) => t.screen->Setup_0.host == form.host
                    && t.screen->Setup_0.api_key == form.api_key,
                _ => t.screen->Setup_0.host.value == config.sonarr_host,
            }
            &&& err is MissingApiKey && !(app.screen is Setup) ==> t.screen
                == ScreenModel::Setup(SetupModel::opened(config.sonarr_host))
        }),
{
}

/// A rejected key is dropped, and asked for again on the host that is set.
pub proof fn law_a_rejected_key_is_asked_for_again(app: SonarrModel, config: ConfigModel)
    ensures
        ({
            let t = app.expired(config);
            &&& t.outbox == app.outbox.push(AppCall::DeleteKey)
            &&& t.auth_gen != app.auth_gen
            &&& t.screen is Setup
            &&& t.screen->Setup_0.error == Some("API key rejected, please enter it again"@)
            &&& t.screen->Setup_0.host.value == config.sonarr_host
            &&& t.screen->Setup_0.api_key.value.len() == 0
        }),
{
}

/// An answer about the queue reaches the browse screen's queue, and ends the
/// session only where it is the awaited one and says that the key was rejected.
pub proof fn law_answers_reach_the_browse_screen(
    app: SonarrModel,
    browse: BrowseModel,
    queue_gen: u64,
    queue: Vec<QueueItem>,
    config: ConfigModel,
)
    requires
        app.screen == ScreenModel::Browse(browse),
        queue_gen == browse.gens.queue,
    ensures
        ({
            let (t, c) = app.after_event(Msg::QueueLoaded { queue_gen, result: Ok(queue) }, config);
            &&& c == config
            &&& t.screen is Browse
            &&& t.screen->Browse_0.lists.queue == queue@
            &&& t.outbox == app.outbox
        }),
        ({
            let (t, c) = app.after_event(
                Msg::QueueLoaded { queue_gen, result: Err(Error::Unauthorized) },
                config,
            );
            &&& t.screen is Setup
            &&& t.outbox == app.outbox.push(AppCall::DeleteKey)
        }),
{
}

} // verus!
