//! How the Radarr app connects: what it is handed to the server with, and what
//! is kept of the answer.

use vstd::prelude::*;

use crate::app::{KeyCode, KeyEvent};
use crate::apps::radarr::setup::SetupModel;
use crate::apps::radarr::state::BrowseModel;
use crate::apps::radarr::{AppCall, Msg, RadarrModel, ScreenModel};
use crate::arr::models::QueueItem;
use crate::arr::Error;
use crate::config::ConfigModel;
use crate::net::problem;
use crate::ui::form::field_at;

verus! {

/// The setup form asks for the host, which starts as it is set, and for the
/// key, which starts empty and is never shown.
pub proof fn law_the_setup_form_asks_for_host_and_key(host: Seq<char>)
    ensures
        ({
            let form = SetupModel::opened(host);
            let f = form.form.fields;
            &&& f.len() == 2
            &&& f[0].label == "Host" && f[0].input.value == host
            &&& f[1].label == "API key" && f[1].input.value.len() == 0 && f[1].input.masked
            &&& form.host() == f[0].input.value
            &&& form.api_key() == f[1].input.value
            &&& form.error is None
            &&& !form.busy
        }),
{
    reveal_with_fuel(field_at, 4);
}

/// Bringing the app to the front connects to the host that is set, with the key
/// that is stored, and asks for a host where none is set.
pub proof fn law_the_app_connects_to_the_set_host(app: RadarrModel, config: ConfigModel)
    requires
        app.screen is Boot,
    ensures
        ({
            let t = app.activated(config);
            if config.radarr_host.len() > 0 {
                &&& t.screen is Connecting
                &&& t.auth_gen != app.auth_gen
                &&& t.outbox == app.outbox.push(
                    AppCall::Connect {
                        auth_gen: t.auth_gen,
                        host: config.radarr_host,
                        api_key: None,
                    },
                )
            } else {
                &&& t.screen == ScreenModel::Setup(SetupModel::opened(config.radarr_host))
                &&& t.outbox == app.outbox
            }
        }),
{
}

/// Submitting the form connects with the host and the key in its rows; one that
/// is incomplete is not sent and says why.
pub proof fn law_submitting_connects_with_what_was_typed(
    app: RadarrModel,
    form: SetupModel,
    key: KeyEvent,
    config: ConfigModel,
)
    requires
        app.screen == ScreenModel::Setup(form),
        !form.busy,
        form.form.fields.len() == 2,
        form.form.fields[0].id == 0,
        form.form.fields[1].id == 1,
        form.form.focus == 2,
        key.code == KeyCode::Enter,
    ensures
        ({
            let t = app.after_key(key, config);
            let host = form.form.fields[0].input.value;
            let api_key = form.form.fields[1].input.value;
            let complete = host.len() > 0 && problem(host) is None && api_key.len() > 0;
            &&& t.screen is Setup
            &&& t.screen->Setup_0.form == form.form
            &&& !complete ==> t.outbox == app.outbox && t.auth_gen == app.auth_gen
                && t.screen->Setup_0.error is Some && !t.screen->Setup_0.busy
            &&& complete ==> t.auth_gen != app.auth_gen && t.screen->Setup_0.busy && t.outbox
                == app.outbox.push(
                AppCall::Connect { auth_gen: t.auth_gen, host, api_key: Some(api_key) },
            )
        }),
{
    reveal_with_fuel(field_at, 4);
}

/// A connect that succeeded is kept: the host that answered in the settings,
/// the typed key in the keyring where there was a form; the other settings stay
/// and the browse screen opens on its lists.
pub proof fn law_a_connection_is_kept(app: RadarrModel, host: Seq<char>, config: ConfigModel)
    ensures
        ({
            let (t, c) = app.connected(Ok(host), config);
            &&& c == (ConfigModel { radarr_host: host, ..config })
            &&& t.screen is Browse
            &&& t.screen->Browse_0.outbox.len() == 2
            &&& t.auth_gen == app.auth_gen
            &&& match app.screen {
                ScreenModel::Setup(form) => t.outbox == app.outbox.push(AppCall::SaveConfig).push(
                    AppCall::StoreKey(form.api_key()),
                ),
                _ => t.outbox == app.outbox.push(AppCall::SaveConfig),
            }
        }),
{
}

/// A connect that failed says why on the form, which keeps what was typed, and
/// changes no settings; without a stored key the form just opens.
pub proof fn law_a_failed_connect_is_told(app: RadarrModel, err: Error, config: ConfigModel)
    ensures
        ({
            let (t, c) = app.connected(Err(err), config);
            &&& c == config
            &&& t.outbox == app.outbox
            &&& t.screen is Setup
            &&& !(err is MissingApiKey) ==> t.screen->Setup_0.error == Some(err.text())
                && !t.screen->Setup_0.busy && t.screen->Setup_0.form == match app.screen {
                ScreenModel::Setup(form) => form.form,
                _ => SetupModel::opened(config.radarr_host).form,
            }
            &&& err is MissingApiKey && !(app.screen is Setup) ==> t.screen
                == ScreenModel::Setup(SetupModel::opened(config.radarr_host))
        }),
{
}

/// A rejected key is dropped, and asked for again on the host that is set.
pub proof fn law_a_rejected_key_is_asked_for_again(app: RadarrModel, config: ConfigModel)
    ensures
        ({
            let t = app.expired(config);
            &&& t.outbox == app.outbox.push(AppCall::DeleteKey)
            &&& t.auth_gen != app.auth_gen
            &&& t.screen is Setup
            &&& t.screen->Setup_0.error == Some("API key rejected, please enter it again"@)
            &&& t.screen->Setup_0.form == SetupModel::opened(config.radarr_host).form
        }),
{
}

/// An answer about the queue reaches the browse screen's queue, and ends the
/// session only where it is the awaited one and says that the key was rejected.
pub proof fn law_answers_reach_the_browse_screen(
    app: RadarrModel,
    browse: BrowseModel,
    queue_gen: u64,
    queue: Vec<QueueItem>,
    config: ConfigModel,
)
    requires
        app.screen == ScreenModel::Browse(browse),
        queue_gen == browse.gens.queue,
    ensures
        ({
            let (t, c) = app.after_event(Msg::QueueLoaded { queue_gen, result: Ok(queue) }, config);
            &&& c == config
            &&& t.screen is Browse
            &&& t.screen->Browse_0.lists.queue == queue@
            &&& t.outbox == app.outbox
        }),
        ({
            let (t, c) = app.after_event(
                Msg::QueueLoaded { queue_gen, result: Err(Error::Unauthorized) },
                config,
            );
            &&& t.screen is Setup
            &&& t.outbox == app.outbox.push(AppCall::DeleteKey)
        }),
{
}

} // verus!
